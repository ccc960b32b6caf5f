//! The token vocabulary: a closed, exhaustive classification of every lexical
//! unit of the language, rendering of each token to its canonical source
//! text, and the reserved-keyword classifier.

use vstd::prelude::*;

verus! {

use crate::text::str_eq;

broadcast use vstd::string::group_string_axioms;

/// One lexical unit of the language.
///
/// The variants fall into four families:
/// - structural: the whitespace marker;
/// - literals, which carry their source text: identifiers and integer,
///   boolean and string literals (the text is opaque at this layer, its
///   validation belongs to a later stage);
/// - keywords, whose text is fixed per variant; the primitive-type words
///   `int`, `boolean` and `string` are keywords here, for consistency with
///   `void`;
/// - symbols: punctuation and operators, whose text is likewise fixed.
///
/// Tokens are immutable values with no identity beyond their content.
#[derive(Debug, Clone, PartialEq, Eq)]
pub enum Token {
    WhiteSpace,
    Id(String),
    IntLit(String),
    BoolLit(String),
    StrLit(String),
    True,
    False,
    While,
    If,
    ElseIf,
    Else,
    Break,
    Return,
    IntT,
    BooleanT,
    StringT,
    VoidT,
    Function,
    LParen,
    RParen,
    LBrace,
    RBrace,
    Semi,
    Comma,
    AddOp,
    SubOp,
    MulOp,
    DivOp,
    ModOp,
    GtOp,
    LtOp,
    GtEqOp,
    LtEqOp,
    EqOp,
    EqEqOp,
    NotOp,
    NotEqOp,
    LogicAndOp,
    LogicOrOp,
}

impl Token {
    /// The canonical source text of this token, as a character sequence.
    pub open spec fn spec_render(self) -> Seq<char> {
        match self {
            Token::WhiteSpace => " "@,
            Token::Id(s) => s@,
            Token::IntLit(s) => s@,
            Token::BoolLit(s) => s@,
            Token::StrLit(s) => s@,
            Token::True => "true"@,
            Token::False => "false"@,
            Token::While => "while"@,
            Token::If => "if"@,
            Token::ElseIf => "else if"@,
            Token::Else => "else"@,
            Token::Break => "break"@,
            Token::Return => "return"@,
            Token::IntT => "int"@,
            Token::BooleanT => "boolean"@,
            Token::StringT => "string"@,
            Token::VoidT => "void"@,
            Token::Function => "fun"@,
            Token::LParen => "("@,
            Token::RParen => ")"@,
            Token::LBrace => "{"@,
            Token::RBrace => "}"@,
            Token::Semi => ";"@,
            Token::Comma => ","@,
            Token::AddOp => "+"@,
            Token::SubOp => "-"@,
            Token::MulOp => "*"@,
            Token::DivOp => "/"@,
            Token::ModOp => "%"@,
            Token::GtOp => ">"@,
            Token::LtOp => "<"@,
            Token::GtEqOp => ">="@,
            Token::LtEqOp => "<="@,
            Token::EqOp => "="@,
            Token::EqEqOp => "=="@,
            Token::NotOp => "!"@,
            Token::NotEqOp => "!="@,
            Token::LogicAndOp => "&&"@,
            Token::LogicOrOp => "||"@,
        }
    }

    /// The source text a literal-carrying token owns, if it carries any.
    pub open spec fn spec_payload(self) -> Option<Seq<char>> {
        match self {
            Token::Id(s) => Some(s@),
            Token::IntLit(s) => Some(s@),
            Token::BoolLit(s) => Some(s@),
            Token::StrLit(s) => Some(s@),
            _ => None,
        }
    }

    /// Whether this token's text is fixed by its variant alone.
    pub open spec fn has_fixed_text(self) -> bool {
        self.spec_payload() is None
    }

    /// Renders this token back to its canonical source text.
    ///
    /// Rendering is total and pure: every variant has a defined textual form,
    /// and the result depends on the token's content alone.
    pub fn render(&self) -> (r: String)
        ensures
            r@ == self.spec_render(),
    {
        match self {
            Token::WhiteSpace => " ".to_owned(),
            Token::Id(s) => s.clone(),
            Token::IntLit(s) => s.clone(),
            Token::BoolLit(s) => s.clone(),
            Token::StrLit(s) => s.clone(),
            Token::True => "true".to_owned(),
            Token::False => "false".to_owned(),
            Token::While => "while".to_owned(),
            Token::If => "if".to_owned(),
            Token::ElseIf => "else if".to_owned(),
            Token::Else => "else".to_owned(),
            Token::Break => "break".to_owned(),
            Token::Return => "return".to_owned(),
            Token::IntT => "int".to_owned(),
            Token::BooleanT => "boolean".to_owned(),
            Token::StringT => "string".to_owned(),
            Token::VoidT => "void".to_owned(),
            Token::Function => "fun".to_owned(),
            Token::LParen => "(".to_owned(),
            Token::RParen => ")".to_owned(),
            Token::LBrace => "{".to_owned(),
            Token::RBrace => "}".to_owned(),
            Token::Semi => ";".to_owned(),
            Token::Comma => ",".to_owned(),
            Token::AddOp => "+".to_owned(),
            Token::SubOp => "-".to_owned(),
            Token::MulOp => "*".to_owned(),
            Token::DivOp => "/".to_owned(),
            Token::ModOp => "%".to_owned(),
            Token::GtOp => ">".to_owned(),
            Token::LtOp => "<".to_owned(),
            Token::GtEqOp => ">=".to_owned(),
            Token::LtEqOp => "<=".to_owned(),
            Token::EqOp => "=".to_owned(),
            Token::EqEqOp => "==".to_owned(),
            Token::NotOp => "!".to_owned(),
            Token::NotEqOp => "!=".to_owned(),
            Token::LogicAndOp => "&&".to_owned(),
            Token::LogicOrOp => "||".to_owned(),
        }
    }
}

/// Whether `s` is one of the reserved words of the language.
///
/// The reserved set is closed: the ten word-shaped keywords together with the
/// primitive-type words. Classification is case-sensitive and exact-match
/// only. An else-if construct is not a reserved word: a classifier of single
/// words never sees two words at once, so `else` and `if` arrive as two
/// independent tokens and are folded together during syntax analysis.
pub open spec fn is_reserved_word(s: Seq<char>) -> bool {
    ||| s == "fun"@
    ||| s == "if"@
    ||| s == "else"@
    ||| s == "while"@
    ||| s == "return"@
    ||| s == "break"@
    ||| s == "void"@
    ||| s == "true"@
    ||| s == "false"@
    ||| s == "int"@
    ||| s == "boolean"@
    ||| s == "string"@
}

/// The keyword token a reserved word denotes, or `None` for any other text.
pub open spec fn spec_keyword_token(s: Seq<char>) -> Option<Token> {
    if s == "fun"@ {
        Some(Token::Function)
    } else if s == "if"@ {
        Some(Token::If)
    } else if s == "else"@ {
        Some(Token::Else)
    } else if s == "while"@ {
        Some(Token::While)
    } else if s == "return"@ {
        Some(Token::Return)
    } else if s == "break"@ {
        Some(Token::Break)
    } else if s == "void"@ {
        Some(Token::VoidT)
    } else if s == "true"@ {
        Some(Token::True)
    } else if s == "false"@ {
        Some(Token::False)
    } else if s == "int"@ {
        Some(Token::IntT)
    } else if s == "boolean"@ {
        Some(Token::BooleanT)
    } else if s == "string"@ {
        Some(Token::StringT)
    } else {
        None
    }
}

/// Classifies a word as a reserved keyword.
///
/// Given a maximal run of identifier-shaped characters already extracted by
/// a scanner, returns the keyword token it denotes, or `None` when the word
/// is not reserved and should become an ordinary identifier. Total for any
/// input, with no matching beyond exact equality.
pub fn keyword_to_token(keyword: &str) -> (r: Option<Token>)
    ensures
        r == spec_keyword_token(keyword@),
{
    if str_eq(keyword, "fun") {
        Some(Token::Function)
    } else if str_eq(keyword, "if") {
        Some(Token::If)
    } else if str_eq(keyword, "else") {
        Some(Token::Else)
    } else if str_eq(keyword, "while") {
        Some(Token::While)
    } else if str_eq(keyword, "return") {
        Some(Token::Return)
    } else if str_eq(keyword, "break") {
        Some(Token::Break)
    } else if str_eq(keyword, "void") {
        Some(Token::VoidT)
    } else if str_eq(keyword, "true") {
        Some(Token::True)
    } else if str_eq(keyword, "false") {
        Some(Token::False)
    } else if str_eq(keyword, "int") {
        Some(Token::IntT)
    } else if str_eq(keyword, "boolean") {
        Some(Token::BooleanT)
    } else if str_eq(keyword, "string") {
        Some(Token::StringT)
    } else {
        None
    }
}

/// The canonical text of a whole token stream: each token's text in order.
pub open spec fn spec_render_stream(ts: Seq<Token>) -> Seq<char>
    decreases ts.len(),
{
    if ts.len() == 0 {
        Seq::empty()
    } else {
        spec_render_stream(ts.drop_last()) + ts.last().spec_render()
    }
}

/// Renders a token stream by concatenating each token's canonical text, in
/// order: the re-serialization used for diagnostics and test fixtures.
pub fn render_stream(ts: &Vec<Token>) -> (r: String)
    ensures
        r@ == spec_render_stream(ts@),
{
    let mut r = String::new();
    let mut i: usize = 0;
    while i < ts.len()
        invariant
            i <= ts@.len(),
            r@ == spec_render_stream(ts@.take(i as int)),
        decreases ts@.len() - i,
    {
        let piece = ts[i].render();
        r.append(piece.as_str());
        proof {
            assert(ts@.take(i as int + 1).drop_last() =~= ts@.take(i as int));
            assert(ts@.take(i as int + 1).last() == ts@[i as int]);
        }
        i += 1;
    }
    proof {
        assert(ts@.take(ts@.len() as int) =~= ts@);
    }
    r
}

/// Round trip for keywords: classifying a reserved word yields a token that
/// renders back to that very word.
pub proof fn lemma_keyword_render_round_trip(s: Seq<char>)
    ensures
        spec_keyword_token(s) matches Some(t) ==> t.spec_render() == s,
{
}

/// The classifier recognises exactly the reserved words: any other text, the
/// empty word included, yields `None`.
pub proof fn lemma_keyword_token_iff_reserved(s: Seq<char>)
    ensures
        spec_keyword_token(s) is Some <==> is_reserved_word(s),
{
}

/// Rendering is pure: equal tokens render to identical text, however often
/// rendering is applied.
pub proof fn lemma_render_pure(t1: Token, t2: Token)
    requires
        t1 == t2,
    ensures
        t1.spec_render() == t2.spec_render(),
{
}

/// Every token renders to non-empty text, provided a literal-carrying token
/// holds non-empty source text (a literal owns exactly the text it was
/// scanned from, so an empty payload never arises from scanning).
pub proof fn lemma_render_nonempty(t: Token)
    requires
        t.spec_payload() matches Some(s) ==> s.len() > 0,
    ensures
        t.spec_render().len() > 0,
{
    reveal_strlit(" ");
    reveal_strlit("true");
    reveal_strlit("false");
    reveal_strlit("while");
    reveal_strlit("if");
    reveal_strlit("else if");
    reveal_strlit("else");
    reveal_strlit("break");
    reveal_strlit("return");
    reveal_strlit("int");
    reveal_strlit("boolean");
    reveal_strlit("string");
    reveal_strlit("void");
    reveal_strlit("fun");
    reveal_strlit("(");
    reveal_strlit(")");
    reveal_strlit("{");
    reveal_strlit("}");
    reveal_strlit(";");
    reveal_strlit(",");
    reveal_strlit("+");
    reveal_strlit("-");
    reveal_strlit("*");
    reveal_strlit("/");
    reveal_strlit("%");
    reveal_strlit(">");
    reveal_strlit("<");
    reveal_strlit(">=");
    reveal_strlit("<=");
    reveal_strlit("=");
    reveal_strlit("==");
    reveal_strlit("!");
    reveal_strlit("!=");
    reveal_strlit("&&");
    reveal_strlit("||");
}

/// The fixed-text token a canonical text denotes, if any: the inverse of
/// rendering on the tokens that carry no payload.
spec fn spec_fixed_token_of(s: Seq<char>) -> Option<Token> {
    if s == " "@ {
        Some(Token::WhiteSpace)
    } else if s == "true"@ {
        Some(Token::True)
    } else if s == "false"@ {
        Some(Token::False)
    } else if s == "while"@ {
        Some(Token::While)
    } else if s == "if"@ {
        Some(Token::If)
    } else if s == "else if"@ {
        Some(Token::ElseIf)
    } else if s == "else"@ {
        Some(Token::Else)
    } else if s == "break"@ {
        Some(Token::Break)
    } else if s == "return"@ {
        Some(Token::Return)
    } else if s == "int"@ {
        Some(Token::IntT)
    } else if s == "boolean"@ {
        Some(Token::BooleanT)
    } else if s == "string"@ {
        Some(Token::StringT)
    } else if s == "void"@ {
        Some(Token::VoidT)
    } else if s == "fun"@ {
        Some(Token::Function)
    } else if s == "("@ {
        Some(Token::LParen)
    } else if s == ")"@ {
        Some(Token::RParen)
    } else if s == "{"@ {
        Some(Token::LBrace)
    } else if s == "}"@ {
        Some(Token::RBrace)
    } else if s == ";"@ {
        Some(Token::Semi)
    } else if s == ","@ {
        Some(Token::Comma)
    } else if s == "+"@ {
        Some(Token::AddOp)
    } else if s == "-"@ {
        Some(Token::SubOp)
    } else if s == "*"@ {
        Some(Token::MulOp)
    } else if s == "/"@ {
        Some(Token::DivOp)
    } else if s == "%"@ {
        Some(Token::ModOp)
    } else if s == ">="@ {
        Some(Token::GtEqOp)
    } else if s == "<="@ {
        Some(Token::LtEqOp)
    } else if s == ">"@ {
        Some(Token::GtOp)
    } else if s == "<"@ {
        Some(Token::LtOp)
    } else if s == "=="@ {
        Some(Token::EqEqOp)
    } else if s == "="@ {
        Some(Token::EqOp)
    } else if s == "!="@ {
        Some(Token::NotEqOp)
    } else if s == "!"@ {
        Some(Token::NotOp)
    } else if s == "&&"@ {
        Some(Token::LogicAndOp)
    } else if s == "||"@ {
        Some(Token::LogicOrOp)
    } else {
        None
    }
}

/// Rendering a fixed-text token is inverted by `spec_fixed_token_of`.
proof fn lemma_fixed_text_inverse(t: Token)
    requires
        t.has_fixed_text(),
    ensures
        spec_fixed_token_of(t.spec_render()) == Some(t),
{
    reveal_strlit(" ");
    reveal_strlit("true");
    reveal_strlit("false");
    reveal_strlit("while");
    reveal_strlit("if");
    reveal_strlit("else if");
    reveal_strlit("else");
    reveal_strlit("break");
    reveal_strlit("return");
    reveal_strlit("int");
    reveal_strlit("boolean");
    reveal_strlit("string");
    reveal_strlit("void");
    reveal_strlit("fun");
    reveal_strlit("(");
    reveal_strlit(")");
    reveal_strlit("{");
    reveal_strlit("}");
    reveal_strlit(";");
    reveal_strlit(",");
    reveal_strlit("+");
    reveal_strlit("-");
    reveal_strlit("*");
    reveal_strlit("/");
    reveal_strlit("%");
    reveal_strlit(">");
    reveal_strlit("<");
    reveal_strlit(">=");
    reveal_strlit("<=");
    reveal_strlit("=");
    reveal_strlit("==");
    reveal_strlit("!");
    reveal_strlit("!=");
    reveal_strlit("&&");
    reveal_strlit("||");
    // Each canonical text is told apart from every other by its length and
    // its first character; pin both down for every fixed-text literal.
    assert(" "@.len() == 1 && " "@[0] == ' ');
    assert("true"@.len() == 4 && "true"@[0] == 't');
    assert("false"@.len() == 5 && "false"@[0] == 'f');
    assert("while"@.len() == 5 && "while"@[0] == 'w');
    assert("if"@.len() == 2 && "if"@[0] == 'i');
    assert("else if"@.len() == 7 && "else if"@[0] == 'e');
    assert("else"@.len() == 4 && "else"@[0] == 'e');
    assert("break"@.len() == 5 && "break"@[0] == 'b');
    assert("return"@.len() == 6 && "return"@[0] == 'r');
    assert("int"@.len() == 3 && "int"@[0] == 'i');
    assert("boolean"@.len() == 7 && "boolean"@[0] == 'b');
    assert("string"@.len() == 6 && "string"@[0] == 's');
    assert("void"@.len() == 4 && "void"@[0] == 'v');
    assert("fun"@.len() == 3 && "fun"@[0] == 'f');
    assert("("@.len() == 1 && "("@[0] == '(');
    assert(")"@.len() == 1 && ")"@[0] == ')');
    assert("{"@.len() == 1 && "{"@[0] == '{');
    assert("}"@.len() == 1 && "}"@[0] == '}');
    assert(";"@.len() == 1 && ";"@[0] == ';');
    assert(","@.len() == 1 && ","@[0] == ',');
    assert("+"@.len() == 1 && "+"@[0] == '+');
    assert("-"@.len() == 1 && "-"@[0] == '-');
    assert("*"@.len() == 1 && "*"@[0] == '*');
    assert("/"@.len() == 1 && "/"@[0] == '/');
    assert("%"@.len() == 1 && "%"@[0] == '%');
    assert(">"@.len() == 1 && ">"@[0] == '>');
    assert("<"@.len() == 1 && "<"@[0] == '<');
    assert(">="@.len() == 2 && ">="@[0] == '>');
    assert("<="@.len() == 2 && "<="@[0] == '<');
    assert("="@.len() == 1 && "="@[0] == '=');
    assert("=="@.len() == 2 && "=="@[0] == '=');
    assert("!"@.len() == 1 && "!"@[0] == '!');
    assert("!="@.len() == 2 && "!="@[0] == '!');
    assert("&&"@.len() == 2 && "&&"@[0] == '&');
    assert("||"@.len() == 2 && "||"@[0] == '|');
    match t {
        Token::Id(_) | Token::IntLit(_) | Token::BoolLit(_) | Token::StrLit(_) => {
            assert(t.spec_payload() is Some);
        },
        Token::WhiteSpace => {
        },
        Token::True => {
        },
        Token::False => {
        },
        Token::While => {
        },
        Token::If => {
        },
        Token::ElseIf => {
        },
        Token::Else => {
        },
        Token::Break => {
        },
        Token::Return => {
        },
        Token::IntT => {
        },
        Token::BooleanT => {
        },
        Token::StringT => {
        },
        Token::VoidT => {
        },
        Token::Function => {
        },
        Token::LParen => {
        },
        Token::RParen => {
        },
        Token::LBrace => {
        },
        Token::RBrace => {
        },
        Token::Semi => {
        },
        Token::Comma => {
        },
        Token::AddOp => {
        },
        Token::SubOp => {
        },
        Token::MulOp => {
        },
        Token::DivOp => {
        },
        Token::ModOp => {
        },
        Token::GtOp => {
        },
        Token::LtOp => {
        },
        Token::GtEqOp => {
        },
        Token::LtEqOp => {
        },
        Token::EqOp => {
        },
        Token::EqEqOp => {
        },
        Token::NotOp => {
        },
        Token::NotEqOp => {
        },
        Token::LogicAndOp => {
        },
        Token::LogicOrOp => {
        },
    }
}

/// Tokens whose text is fixed by their variant render distinctly: no two
/// different keyword, symbol or whitespace tokens share a textual form. In
/// particular the opening and the closing parenthesis render differently.
pub proof fn lemma_render_distinct(t1: Token, t2: Token)
    requires
        t1.has_fixed_text(),
        t2.has_fixed_text(),
        t1 != t2,
    ensures
        t1.spec_render() != t2.spec_render(),
{
    lemma_fixed_text_inverse(t1);
    lemma_fixed_text_inverse(t2);
}

} // verus!
