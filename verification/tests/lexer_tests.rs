use whiteye::ast::Ast;
use whiteye::backend::{BackendType, CompileBackend, JITBackend};
use whiteye::lexer::{Lexer, LexerError};
use whiteye::token::{Token, TokenKind};

#[test]
fn lexes_numbers_and_symbols() {
    let mut lexer = Lexer::new("12 + (3*4) / 5 - 6");
    let mut kinds = Vec::new();
    loop {
        match lexer.lex() {
            Ok(t) => kinds.push(t.kind),
            Err(LexerError::InvalidPosition(_)) => break,
            Err(e) => panic!("unexpected lexing fault {:?}", e),
        }
    }
    assert_eq!(
        kinds,
        vec![
            TokenKind::Number(12),
            TokenKind::Plus,
            TokenKind::LParen,
            TokenKind::Number(3),
            TokenKind::Asterisk,
            TokenKind::Number(4),
            TokenKind::RParen,
            TokenKind::Slash,
            TokenKind::Number(5),
            TokenKind::Minus,
            TokenKind::Number(6),
        ]
    );
}

#[test]
fn tokens_carry_their_raw_text() {
    let mut lexer = Lexer::new("  42+");
    assert_eq!(
        lexer.lex(),
        Ok(Token {
            kind: TokenKind::Number(42),
            raw_input: "42".to_string(),
        })
    );
    assert_eq!(
        lexer.lex(),
        Ok(Token {
            kind: TokenKind::Plus,
            raw_input: "+".to_string(),
        })
    );
}

#[test]
fn lexing_past_the_end_reports_the_position() {
    let mut lexer = Lexer::new(" ");
    assert_eq!(lexer.lex(), Err(LexerError::InvalidPosition(1)));
}

#[test]
fn an_unexpected_character_does_not_advance() {
    let mut lexer = Lexer::new("a");
    assert_eq!(lexer.lex(), Err(LexerError::UnexpectedCharacterError('a')));
    assert_eq!(lexer.pos, 0);
}

#[test]
fn a_number_beyond_sixty_four_bits_faults() {
    let mut lexer = Lexer::new(" 99999999999999999999");
    assert_eq!(lexer.lex(), Err(LexerError::NumberOverflow(1)));
}

#[test]
fn cursor_reads_and_advances() {
    let mut lexer = Lexer::new("ab");
    assert_eq!(lexer.cur(), Ok('a'));
    assert_eq!(lexer.next(), Ok(()));
    assert_eq!(lexer.cur(), Ok('b'));
    assert_eq!(lexer.next(), Ok(()));
    assert_eq!(lexer.cur(), Err(LexerError::InvalidPosition(2)));
    assert_eq!(lexer.next(), Err(LexerError::MaximumPosition(2)));
}

#[test]
fn backend_names_select_case_insensitively() {
    assert_eq!(
        BackendType::from_name("none"),
        Some(BackendType::Interpreter)
    );
    assert_eq!(BackendType::from_name("NoNe"), Some(BackendType::Interpreter));
    assert_eq!(BackendType::from_name("llvm"), Some(BackendType::LLVM));
    assert_eq!(BackendType::from_name("LLVM"), Some(BackendType::LLVM));
    assert_eq!(BackendType::from_name("jit"), None);
    assert_eq!(BackendType::from_name(""), None);
}

struct NodeCounter {
    compiled: usize,
    ran: usize,
}

impl CompileBackend for NodeCounter {
    fn compile(&mut self, ast: &[Ast]) {
        self.compiled += ast.len();
    }
}

impl JITBackend for NodeCounter {
    fn jit(&mut self, ast: &[Ast]) {
        self.ran += ast.len();
    }
}

#[test]
fn backend_traits_accept_a_program() {
    let nodes = whiteye::parser::parse("print(1)\nprint(2)").unwrap();
    let mut counter = NodeCounter { compiled: 0, ran: 0 };
    counter.compile(&nodes);
    counter.jit(&nodes);
    assert_eq!(counter.compiled, 2);
    assert_eq!(counter.ran, 2);
}
