//! Column values and the SQL literals they are written as.

use vstd::prelude::*;
use vstd::string::*;
use crate::text::{
    decimal, escape_quotes, hex, lemma_escape_quotes_len, push_decimal, push_escaped, push_hex,
    quote_count,
};

verus! {

/// One column value of a record.
#[derive(Debug, PartialEq, Eq)]
pub enum Value {
    /// The absent value.
    Null,
    /// A signed integer.
    Integer(i64),
    /// The decimal number `mantissa` times ten to the power `exponent`.
    Real { mantissa: i64, exponent: i32 },
    /// A character string.
    Text(String),
    /// A truth value.
    Boolean(bool),
    /// A byte string.
    Blob(Vec<u8>),
}

/// What a [`Value`] stands for.
pub enum ValueView {
    Null,
    Integer(int),
    Real { mantissa: int, exponent: int },
    Text(Seq<char>),
    Boolean(bool),
    Blob(Seq<u8>),
}

impl View for Value {
    type V = ValueView;

    open spec fn view(&self) -> ValueView {
        match self {
            Value::Null => ValueView::Null,
            Value::Integer(n) => ValueView::Integer(*n as int),
            Value::Real { mantissa, exponent } => ValueView::Real {
                mantissa: *mantissa as int,
                exponent: *exponent as int,
            },
            Value::Text(s) => ValueView::Text(s@),
            Value::Boolean(b) => ValueView::Boolean(*b),
            Value::Blob(bytes) => ValueView::Blob(bytes@),
        }
    }
}

impl Clone for Value {
    fn clone(&self) -> (copy: Self)
        ensures
            copy@ == self@,
    {
        match self {
            Value::Null => Value::Null,
            Value::Integer(n) => Value::Integer(*n),
            Value::Real { mantissa, exponent } => Value::Real {
                mantissa: *mantissa,
                exponent: *exponent,
            },
            Value::Text(s) => Value::Text(s.clone()),
            Value::Boolean(b) => Value::Boolean(*b),
            Value::Blob(bytes) => Value::Blob(bytes.clone()),
        }
    }
}

/// What each value of a list stands for, in order.
pub open spec fn value_views(values: Seq<Value>) -> Seq<ValueView> {
    Seq::new(values.len(), |i: int| values[i]@)
}

/// The literal of a text: the text between single quotes, each single quote
/// inside it written twice.
pub open spec fn text_literal(s: Seq<char>) -> Seq<char> {
    seq!['\''] + escape_quotes(s) + seq!['\'']
}

/// The SQL literal that a value is written as.
///
/// Numbers and truth values stand bare, a text stands between single quotes,
/// a byte string is a hexadecimal blob literal, and the absent value is `NULL`.
pub open spec fn literal(value: ValueView) -> Seq<char> {
    match value {
        ValueView::Null => "NULL"@,
        ValueView::Integer(n) => decimal(n),
        ValueView::Real { mantissa, exponent } => decimal(mantissa) + seq!['e'] + decimal(exponent),
        ValueView::Text(s) => text_literal(s),
        ValueView::Boolean(b) => if b {
            "TRUE"@
        } else {
            "FALSE"@
        },
        ValueView::Blob(bytes) => "X'"@ + hex(bytes) + seq!['\''],
    }
}

/// The literal of a text begins and ends with a single quote, and between
/// the two stands the text with each of its single quotes written twice.
pub proof fn lemma_text_literal_quoted(s: Seq<char>)
    ensures
        literal(ValueView::Text(s)) == text_literal(s),
        text_literal(s).len() == s.len() + quote_count(s) + 2,
        text_literal(s).first() == '\'',
        text_literal(s).last() == '\'',
        text_literal(s).subrange(1, text_literal(s).len() - 1) == escape_quotes(s),
{
    lemma_escape_quotes_len(s);
    let quoted = text_literal(s);
    assert(quoted.subrange(1, quoted.len() - 1) =~= escape_quotes(s));
}

/// The literals of a list of values, in order.
pub open spec fn literals(values: Seq<ValueView>) -> Seq<Seq<char>> {
    Seq::new(values.len(), |i: int| literal(values[i]))
}

impl Value {
    /// Appends the literal of `self` to `out`.
    pub fn push_literal(&self, out: &mut String)
        ensures
            final(out)@ == old(out)@ + literal(self@),
    {
        match self {
            Value::Null => {
                out.append("NULL");
            },
            Value::Integer(n) => {
                push_decimal(out, *n);
            },
            Value::Real { mantissa, exponent } => {
                push_decimal(out, *mantissa);
                out.push('e');
                push_decimal(out, *exponent as i64);
            },
            Value::Text(s) => {
                out.push('\'');
                push_escaped(out, s.as_str());
                out.push('\'');
            },
            Value::Boolean(b) => {
                if *b {
                    out.append("TRUE");
                } else {
                    out.append("FALSE");
                }
            },
            Value::Blob(bytes) => {
                out.append("X'");
                push_hex(out, bytes);
                out.push('\'');
            },
        }
    }

    /// The literal of `self`.
    pub fn literal(&self) -> (text: String)
        ensures
            text@ == literal(self@),
    {
        let mut text = String::new();
        self.push_literal(&mut text);
        text
    }
}

} // verus!
