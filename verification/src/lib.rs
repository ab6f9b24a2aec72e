//! A compiler for C--, a small subset of C: one function that returns the value of an
//! integer expression. The source text is lexed, parsed, lowered to the three-address form
//! TACKY, turned into x86-64 assembly, and emitted in AT&T syntax. Every stage states what
//! it computes over the mathematical values of its input and output, and is proved to
//! compute it.

pub mod common;
pub mod compiler;
