use minilex::token::{keyword_to_token, Token};

fn fixed_tokens() -> Vec<Token> {
    vec![
        Token::WhiteSpace,
        Token::True,
        Token::False,
        Token::While,
        Token::If,
        Token::ElseIf,
        Token::Else,
        Token::Break,
        Token::Return,
        Token::IntT,
        Token::BooleanT,
        Token::StringT,
        Token::VoidT,
        Token::Function,
        Token::LParen,
        Token::RParen,
        Token::LBrace,
        Token::RBrace,
        Token::Semi,
        Token::Comma,
        Token::AddOp,
        Token::SubOp,
        Token::MulOp,
        Token::DivOp,
        Token::ModOp,
        Token::GtOp,
        Token::LtOp,
        Token::GtEqOp,
        Token::LtEqOp,
        Token::EqOp,
        Token::EqEqOp,
        Token::NotOp,
        Token::NotEqOp,
        Token::LogicAndOp,
        Token::LogicOrOp,
    ]
}

#[test]
fn test_keyword_to_token_should_pass() {
    assert!(keyword_to_token("fun").is_some());
}

#[test]
fn test_keyword_to_token_should_fail() {
    assert!(keyword_to_token("function").is_none());
}

#[test]
fn keyword_round_trip() {
    let reserved = vec![
        "fun", "if", "else", "while", "return", "break", "void", "true", "false", "int",
        "boolean", "string",
    ];
    for word in reserved {
        let token = keyword_to_token(word).expect("reserved word must classify");
        assert_eq!(token.render(), word);
    }
}

#[test]
fn keywords_map_to_their_variants() {
    assert_eq!(keyword_to_token("fun"), Some(Token::Function));
    assert_eq!(keyword_to_token("if"), Some(Token::If));
    assert_eq!(keyword_to_token("else"), Some(Token::Else));
    assert_eq!(keyword_to_token("while"), Some(Token::While));
    assert_eq!(keyword_to_token("return"), Some(Token::Return));
    assert_eq!(keyword_to_token("break"), Some(Token::Break));
    assert_eq!(keyword_to_token("void"), Some(Token::VoidT));
    assert_eq!(keyword_to_token("true"), Some(Token::True));
    assert_eq!(keyword_to_token("false"), Some(Token::False));
    assert_eq!(keyword_to_token("int"), Some(Token::IntT));
    assert_eq!(keyword_to_token("boolean"), Some(Token::BooleanT));
    assert_eq!(keyword_to_token("string"), Some(Token::StringT));
}

#[test]
fn non_keywords_classify_as_none() {
    assert_eq!(keyword_to_token("function"), None);
    assert_eq!(keyword_to_token("myVar123"), None);
    assert_eq!(keyword_to_token("Fun"), None);
    assert_eq!(keyword_to_token("IF"), None);
    assert_eq!(keyword_to_token(""), None);
    assert_eq!(keyword_to_token("els"), None);
    assert_eq!(keyword_to_token("whilee"), None);
    assert_eq!(keyword_to_token(" fun"), None);
    assert_eq!(keyword_to_token("fun "), None);
}

#[test]
fn else_if_is_not_a_single_word_keyword() {
    // A classifier of single words never receives two words at once; the
    // else-if construct is folded together by the parser instead.
    assert_eq!(keyword_to_token("else if"), None);
    assert_eq!(keyword_to_token("else"), Some(Token::Else));
    assert_eq!(keyword_to_token("if"), Some(Token::If));
}

#[test]
fn fixed_tokens_render_nonempty_and_distinct() {
    let rendered: Vec<String> = fixed_tokens().iter().map(|t| t.render()).collect();
    for text in &rendered {
        assert!(!text.is_empty());
    }
    for i in 0..rendered.len() {
        for j in 0..rendered.len() {
            if i != j {
                assert_ne!(rendered[i], rendered[j]);
            }
        }
    }
}

#[test]
fn parens_render_differently() {
    assert_eq!(Token::LParen.render(), "(");
    assert_eq!(Token::RParen.render(), ")");
    assert_ne!(Token::LParen.render(), Token::RParen.render());
}

#[test]
fn rendering_is_idempotent() {
    for token in fixed_tokens() {
        assert_eq!(token.render(), token.render());
    }
    let id = Token::Id(String::from("answer"));
    assert_eq!(id.render(), id.render());
    assert_eq!(id.clone().render(), id.render());
}

#[test]
fn keyword_renders() {
    assert_eq!(Token::Function.render(), "fun");
    assert_eq!(Token::ElseIf.render(), "else if");
    assert_eq!(Token::VoidT.render(), "void");
    assert_eq!(Token::IntT.render(), "int");
    assert_eq!(Token::BooleanT.render(), "boolean");
    assert_eq!(Token::StringT.render(), "string");
    assert_eq!(Token::WhiteSpace.render(), " ");
}

#[test]
fn literal_tokens_render_their_text() {
    assert_eq!(Token::Id(String::from("x1")).render(), "x1");
    assert_eq!(Token::IntLit(String::from("42")).render(), "42");
    assert_eq!(Token::BoolLit(String::from("true")).render(), "true");
    assert_eq!(Token::StrLit(String::from("\"hi\"")).render(), "\"hi\"");
}

#[test]
fn scenario_fun_classifies_and_renders() {
    let token = keyword_to_token("fun").expect("fun is reserved");
    assert_eq!(token, Token::Function);
    assert_eq!(token.render(), "fun");
}

#[test]
fn scenario_while_classifies_and_renders() {
    let token = keyword_to_token("while").expect("while is reserved");
    assert_eq!(token, Token::While);
    assert_eq!(token.render(), "while");
}

#[test]
fn scenario_identifier_falls_through() {
    let word = "x1";
    assert_eq!(keyword_to_token(word), None);
    let token = Token::Id(String::from(word));
    assert_eq!(token.render(), "x1");
}

#[test]
fn scenario_stream_renders_parenthesized_identifier() {
    let stream = vec![Token::LParen, Token::Id(String::from("x")), Token::RParen];
    assert_eq!(minilex::token::render_stream(&stream), "(x)");
}

#[test]
fn empty_stream_renders_empty() {
    assert_eq!(minilex::token::render_stream(&Vec::new()), "");
}
