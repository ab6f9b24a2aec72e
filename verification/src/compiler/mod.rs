pub mod code_emission;
pub mod code_gen;
pub mod ir_gen;
pub mod laws;
pub mod lexer;
pub mod parser;

use code_emission::{emit_assembly, spec_emit_assembly, SymbolPrefix};
use code_gen::assembly_ast::{AssemblyAst, AssemblyAstView};
use code_gen::errors::CodegenError;
use code_gen::{lemma_frame_bytes_bound, spec_generate_program};
use ir_gen::errors::IRConversionError;
use ir_gen::tacky_ast::{TackyAst, TackyAstView, TackyFunction};
use ir_gen::{lemma_emit_counts, spec_convert_ast, TackyEmitter};
use lexer::errors::{LexerError, LexerErrorView};
use lexer::grammar::spec_tokenize;
use lexer::tokens::{Token, TokenView};
use parser::cmm_ast::{CmmAst, CmmAstView};
use parser::errors::{ParserError, ParserErrorView};
use parser::grammar::{lemma_program_size, spec_parse_ast};
use parser::Parser;
use crate::common::text::{decimal, push_decimal_usize};
use vstd::prelude::*;
use vstd::string::*;

verus! {

/// The most TACKY instructions that a function may have: with more, the offsets of its
/// stack frame, which can take thirty-two bytes for each instruction, may not fit 32 bits.
pub const MAX_TACKY_INSTRUCTIONS: usize = 67_108_863;

/// A stage after which the compilation can stop.
#[derive(Debug, Clone, Copy, PartialEq, Eq, Structural)]
pub enum Stage {
    /// Stop after lexing.
    Lex,
    /// Stop after parsing.
    Parse,
    /// Stop after the lowering to TACKY.
    Tacky,
    /// Stop after the generation of assembly.
    Codegen,
}

/// What a compilation hands back: the result of the stage at which it stopped.
#[derive(Debug)]
pub enum CompilerResult {
    /// The tokens of the source.
    Lexer(Vec<Token>),
    /// The syntax tree.
    Parser(CmmAst),
    /// The TACKY program.
    Tacky(TackyAst),
    /// The assembly program.
    Codegen(AssemblyAst),
    /// The assembly text.
    Final(String),
}

/// The error of the stage that failed.
#[derive(Debug, PartialEq)]
pub enum CompilerError {
    Lexer(LexerError),
    Parser(ParserError),
    IRConversion(IRConversionError),
    Codegen(CodegenError),
    /// The function has more TACKY instructions than [`MAX_TACKY_INSTRUCTIONS`].
    ProgramTooLarge { instructions: usize },
}

/// The mathematical value of a [`CompilerResult`].
pub enum CompilerResultView {
    Lexer(Seq<TokenView>),
    Parser(CmmAstView),
    Tacky(TackyAstView),
    Codegen(AssemblyAstView),
    Final(Seq<char>),
}

/// The mathematical value of a [`CompilerError`].
pub enum CompilerErrorView {
    Lexer(LexerErrorView),
    Parser(ParserErrorView),
    IRConversion(IRConversionError),
    Codegen(CodegenError),
    ProgramTooLarge { instructions: usize },
}

impl DeepView for CompilerResult {
    type V = CompilerResultView;

    open spec fn deep_view(&self) -> CompilerResultView {
        match self {
            CompilerResult::Lexer(tokens) => CompilerResultView::Lexer(tokens.deep_view()),
            CompilerResult::Parser(program) => CompilerResultView::Parser(program.deep_view()),
            CompilerResult::Tacky(program) => CompilerResultView::Tacky(program.deep_view()),
            CompilerResult::Codegen(program) => CompilerResultView::Codegen(program.deep_view()),
            CompilerResult::Final(text) => CompilerResultView::Final(text@),
        }
    }
}

impl DeepView for CompilerError {
    type V = CompilerErrorView;

    open spec fn deep_view(&self) -> CompilerErrorView {
        match self {
            CompilerError::Lexer(error) => CompilerErrorView::Lexer(error.deep_view()),
            CompilerError::Parser(error) => CompilerErrorView::Parser(error.deep_view()),
            CompilerError::IRConversion(error) => CompilerErrorView::IRConversion(*error),
            CompilerError::Codegen(error) => CompilerErrorView::Codegen(*error),
            CompilerError::ProgramTooLarge { instructions } => CompilerErrorView::ProgramTooLarge {
                instructions: *instructions,
            },
        }
    }
}

impl CompilerErrorView {
    /// The message of the error: that of the stage that failed.
    pub open spec fn message(self) -> Seq<char> {
        match self {
            CompilerErrorView::Lexer(error) => error.message(),
            CompilerErrorView::Parser(error) => error.message(),
            CompilerErrorView::IRConversion(error) => error.message(),
            CompilerErrorView::Codegen(error) => error.message(),
            CompilerErrorView::ProgramTooLarge { instructions } => {
                "Codegen error: The function has too many instructions: "@ + decimal(
                    instructions as int,
                )
            },
        }
    }
}

impl CompilerError {
    /// Returns the message of the error.
    pub fn to_string(&self) -> (text: String)
        ensures
            text@ == self.deep_view().message(),
    {
        match self {
            CompilerError::Lexer(error) => error.to_string(),
            CompilerError::Parser(error) => error.to_string(),
            CompilerError::IRConversion(error) => error.to_string(),
            CompilerError::Codegen(error) => error.to_string(),
            CompilerError::ProgramTooLarge { instructions } => {
                let mut text = String::new();
                text.append("Codegen error: The function has too many instructions: ");
                push_decimal_usize(&mut text, *instructions);
                assert(text@ =~= self.deep_view().message());
                text
            },
        }
    }
}

/// What the later stages make of a syntax tree: the TACKY program where the compilation
/// stops there, an error where the function is too large, else the assembly program or its
/// text.
pub open spec fn spec_compile_tree(program: CmmAstView, process_until: Option<Stage>) -> Result<
    CompilerResultView,
    CompilerErrorView,
> {
    let tacky = spec_convert_ast(program, 0, 0);
    if process_until == Some(Stage::Tacky) {
        Ok(CompilerResultView::Tacky(tacky))
    } else if tacky.function.instructions.len() > MAX_TACKY_INSTRUCTIONS {
        Err(
            CompilerErrorView::ProgramTooLarge {
                instructions: tacky.function.instructions.len() as usize,
            },
        )
    } else {
        let assembly = spec_generate_program(tacky);
        if process_until == Some(Stage::Codegen) {
            Ok(CompilerResultView::Codegen(assembly))
        } else {
            Ok(CompilerResultView::Final(spec_emit_assembly(assembly, SymbolPrefix::Underscore)))
        }
    }
}

/// What the compilation of a source text hands back: the stages run in order, the first
/// error ends the compilation, and `process_until` names the stage whose result is wanted
/// in place of the assembly text.
pub open spec fn spec_compile(source: Seq<char>, process_until: Option<Stage>) -> Result<
    CompilerResultView,
    CompilerErrorView,
> {
    match spec_tokenize(source) {
        Err(error) => Err(CompilerErrorView::Lexer(error)),
        Ok(tokens) => {
            if process_until == Some(Stage::Lex) {
                Ok(CompilerResultView::Lexer(tokens))
            } else {
                match spec_parse_ast(tokens, 0).outcome {
                    Err(error) => Err(CompilerErrorView::Parser(error)),
                    Ok(program) => {
                        if process_until == Some(Stage::Parse) {
                            Ok(CompilerResultView::Parser(program))
                        } else {
                            spec_compile_tree(program, process_until)
                        }
                    },
                }
            }
        },
    }
}

/// The number of instructions of a TACKY program.
fn instruction_count(program: &TackyAst) -> (count: usize)
    ensures
        count == program.deep_view().function.instructions.len(),
{
    match program {
        TackyAst::Program { function } => match function {
            TackyFunction::Function { instructions, .. } => instructions.len(),
        },
    }
}

/// Compiles a preprocessed source text to assembly text, or to the result of the stage
/// that `process_until` names. The result is a function of the two arguments alone: the
/// same source and stage give the same result, character for character.
pub fn run_cmm_compiler(cmm_source_code: &str, process_until: &Option<Stage>) -> (compiled:
    Result<CompilerResult, CompilerError>)
    ensures
        match spec_compile(cmm_source_code@, *process_until) {
            Ok(result) => compiled is Ok && compiled->Ok_0.deep_view() == result,
            Err(error) => compiled is Err && compiled->Err_0.deep_view() == error,
        },
{
    let tokens = match lexer::tokenize(cmm_source_code) {
        Ok(tokens) => tokens,
        Err(error) => {
            return Err(CompilerError::Lexer(error));
        },
    };
    if let Some(Stage::Lex) = process_until {
        return Ok(CompilerResult::Lexer(tokens));
    }
    let ghost token_views = tokens.deep_view();
    let mut parser = Parser::new(tokens);
    let cmm_ast = match parser.parse_ast() {
        Ok(program) => program,
        Err(error) => {
            return Err(CompilerError::Parser(error));
        },
    };
    if let Some(Stage::Parse) = process_until {
        return Ok(CompilerResult::Parser(cmm_ast));
    }
    proof {
        lemma_program_size(token_views);
        lemma_emit_counts(cmm_ast.deep_view().function.body->expression, 0, 0);
    }
    let mut tacky_emitter = TackyEmitter::new();
    let tacky_ast = match tacky_emitter.convert_ast(cmm_ast) {
        Ok(program) => program,
        Err(error) => {
            return Err(CompilerError::IRConversion(error));
        },
    };
    if let Some(Stage::Tacky) = process_until {
        return Ok(CompilerResult::Tacky(tacky_ast));
    }
    let instructions = instruction_count(&tacky_ast);
    if instructions > MAX_TACKY_INSTRUCTIONS {
        return Err(CompilerError::ProgramTooLarge { instructions });
    }
    proof {
        lemma_frame_bytes_bound(tacky_ast.deep_view().function.instructions);
    }
    let assembly_ast = match code_gen::convert_ast(tacky_ast) {
        Ok(program) => program,
        Err(error) => {
            return Err(CompilerError::Codegen(error));
        },
    };
    if let Some(Stage::Codegen) = process_until {
        return Ok(CompilerResult::Codegen(assembly_ast));
    }
    let assembly_code = emit_assembly(&assembly_ast);
    Ok(CompilerResult::Final(assembly_code))
}

} // verus!
