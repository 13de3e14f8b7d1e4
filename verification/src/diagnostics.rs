//! What the parser reports. Each diagnostic has a fixed description, a label
//! made from its fields, and the span that the label points at.
use vstd::prelude::*;
use vstd::string::StringExecFns;
use miette::SourceSpan;
use crate::ast::Node;
use crate::span::source_span_of;

verus! {

/// The parser expected one token and found another.
#[derive(Debug)]
pub struct ExpectToken(pub &'static str, pub &'static str, pub Node);

/// The parser met a token that cannot stand where it stands.
#[derive(Debug)]
pub struct UnexpectedToken(pub u32, pub &'static str, pub Node);

/// The parser met a statement of a form it does not know.
#[derive(Debug)]
pub struct UnknownStatement(pub &'static str, pub Node);

/// The source text is not well formed.
#[derive(Debug)]
pub struct InvalidSyntax(pub String, pub Node);

/// The decimal digits of `n`, most significant first.
pub open spec fn decimal(n: nat) -> Seq<char>
    decreases n,
{
    if n < 10 {
        seq![digit(n)]
    } else {
        decimal(n / 10).push(digit(n % 10))
    }
}

/// The character for a digit below ten.
pub open spec fn digit(d: nat) -> char {
    if d == 0 {
        '0'
    } else if d == 1 {
        '1'
    } else if d == 2 {
        '2'
    } else if d == 3 {
        '3'
    } else if d == 4 {
        '4'
    } else if d == 5 {
        '5'
    } else if d == 6 {
        '6'
    } else if d == 7 {
        '7'
    } else if d == 8 {
        '8'
    } else {
        '9'
    }
}

fn digit_str(d: u32) -> (s: &'static str)
    requires
        d < 10,
    ensures
        s@ == seq![digit(d as nat)],
{
    proof {
        reveal_strlit("0");
        reveal_strlit("1");
        reveal_strlit("2");
        reveal_strlit("3");
        reveal_strlit("4");
        reveal_strlit("5");
        reveal_strlit("6");
        reveal_strlit("7");
        reveal_strlit("8");
        reveal_strlit("9");
    }
    let s = if d == 0 {
        "0"
    } else if d == 1 {
        "1"
    } else if d == 2 {
        "2"
    } else if d == 3 {
        "3"
    } else if d == 4 {
        "4"
    } else if d == 5 {
        "5"
    } else if d == 6 {
        "6"
    } else if d == 7 {
        "7"
    } else if d == 8 {
        "8"
    } else {
        "9"
    };
    assert(s@ =~= seq![digit(d as nat)]);
    s
}

/// `n` in decimal.
fn decimal_string(n: u32) -> (s: String)
    ensures
        s@ == decimal(n as nat),
    decreases n,
{
    if n < 10 {
        digit_str(n).to_owned()
    } else {
        let mut s = decimal_string(n / 10);
        let last = digit_str(n % 10);
        s.append(last);
        assert(s@ =~= decimal(n as nat));
        s
    }
}

impl ExpectToken {
    /// The description of this kind of diagnostic.
    pub fn message(&self) -> (s: String)
        ensures
            s@ == "Expect token"@,
    {
        "Expect token".to_owned()
    }

    /// The text of the label.
    pub open spec fn label_text(self) -> Seq<char> {
        "Expect `"@ + self.0@ + "` here, but found `"@ + self.1@ + "`"@
    }

    /// The label: which token was expected and which was found.
    pub fn label(&self) -> (s: String)
        ensures
            s@ == self.label_text(),
    {
        let mut s = "Expect `".to_owned();
        s.append(self.0);
        s.append("` here, but found `");
        s.append(self.1);
        s.append("`");
        s
    }

    /// The span that the label points at.
    pub fn node(&self) -> (node: Node)
        ensures
            node == self.2,
    {
        self.2
    }

    /// The span that the label points at, for the renderer.
    pub fn span(&self) -> (span: SourceSpan)
        requires
            self.2.wf(),
        ensures
            span == source_span_of(self.2.start, (self.2.end - self.2.start) as usize),
    {
        self.2.source_span()
    }
}

impl UnexpectedToken {
    /// The description of this kind of diagnostic.
    pub fn message(&self) -> (s: String)
        ensures
            s@ == "Unexpected token"@,
    {
        "Unexpected token".to_owned()
    }

    /// The text of the label.
    pub open spec fn label_text(self) -> Seq<char> {
        "line: "@ + decimal(self.0 as nat) + " Unexpected token `"@ + self.1@ + "`"@
    }

    /// The label: the line and the token.
    pub fn label(&self) -> (s: String)
        ensures
            s@ == self.label_text(),
    {
        let mut s = "line: ".to_owned();
        let line = decimal_string(self.0);
        s.append(line.as_str());
        s.append(" Unexpected token `");
        s.append(self.1);
        s.append("`");
        s
    }

    /// The span that the label points at.
    pub fn node(&self) -> (node: Node)
        ensures
            node == self.2,
    {
        self.2
    }

    /// The span that the label points at, for the renderer.
    pub fn span(&self) -> (span: SourceSpan)
        requires
            self.2.wf(),
        ensures
            span == source_span_of(self.2.start, (self.2.end - self.2.start) as usize),
    {
        self.2.source_span()
    }
}

impl UnknownStatement {
    /// The description of this kind of diagnostic.
    pub fn message(&self) -> (s: String)
        ensures
            s@ == "Unknown statement"@,
    {
        "Unknown statement".to_owned()
    }

    /// The text of the label.
    pub open spec fn label_text(self) -> Seq<char> {
        "Unknown statement "@ + self.0@
    }

    /// The label: the statement as it was met.
    pub fn label(&self) -> (s: String)
        ensures
            s@ == self.label_text(),
    {
        let mut s = "Unknown statement ".to_owned();
        s.append(self.0);
        s
    }

    /// The span that the label points at.
    pub fn node(&self) -> (node: Node)
        ensures
            node == self.1,
    {
        self.1
    }

    /// The span that the label points at, for the renderer.
    pub fn span(&self) -> (span: SourceSpan)
        requires
            self.1.wf(),
        ensures
            span == source_span_of(self.1.start, (self.1.end - self.1.start) as usize),
    {
        self.1.source_span()
    }
}

impl InvalidSyntax {
    /// The description of this kind of diagnostic.
    pub fn message(&self) -> (s: String)
        ensures
            s@ == "invalid syntax"@,
    {
        "invalid syntax".to_owned()
    }

    /// The text of the label.
    pub open spec fn label_text(self) -> Seq<char> {
        "invalid syntax "@ + self.0@
    }

    /// The label: the parser's own message.
    pub fn label(&self) -> (s: String)
        ensures
            s@ == self.label_text(),
    {
        let mut s = "invalid syntax ".to_owned();
        s.append(self.0.as_str());
        s
    }

    /// The span that the label points at.
    pub fn node(&self) -> (node: Node)
        ensures
            node == self.1,
    {
        self.1
    }

    /// The span that the label points at, for the renderer.
    pub fn span(&self) -> (span: SourceSpan)
        requires
            self.1.wf(),
        ensures
            span == source_span_of(self.1.start, (self.1.end - self.1.start) as usize),
    {
        self.1.source_span()
    }
}

} // verus!
