//! The pretty debug form of a value that holds one field: the field's own
//! text on lines of its own, set in by four spaces, between brackets.

use vstd::prelude::*;
use vstd::string::*;

verus! {

/// `text` with four spaces before each of its lines. A line begins at the
/// first character and after every line break; what follows the last line
/// break is a line only if it holds a character.
pub open spec fn indented(text: Seq<char>) -> Seq<char>
    decreases text.len(),
{
    if text.len() == 0 {
        Seq::empty()
    } else {
        let before = text.drop_last();
        let margin = if before.len() == 0 || before.last() == '\n' {
            "    "@
        } else {
            Seq::empty()
        };
        indented(before) + margin + seq![text.last()]
    }
}

/// The one field of a value in the pretty debug form: an opening bracket,
/// then the field's text and a comma, set in line by line, then the closing
/// bracket on a line of its own.
pub open spec fn field(text: Seq<char>) -> Seq<char> {
    "(\n"@ + indented(text + ",\n"@) + ")"@
}

/// The comma that ends a field stands right behind the field's text. Only
/// where that text is empty or ends in a line break does the comma begin a
/// line, and is set in like one.
pub proof fn lemma_field_ends_in_comma(text: Seq<char>)
    ensures
        field(text) == "(\n"@ + indented(text) + (if text.len() == 0 || text.last() == '\n' {
            "    ,\n)"@
        } else {
            ",\n)"@
        }),
{
    reveal_strlit(",\n");
    reveal_strlit(")");
    reveal_strlit("    ");
    reveal_strlit(",\n)");
    reveal_strlit("    ,\n)");
    let comma = text.push(',');
    let whole = text + ",\n"@;
    assert(whole.drop_last() =~= comma);
    assert(comma.drop_last() =~= text);
    assert(indented(whole) == indented(comma) + seq!['\n']);
    if text.len() == 0 || text.last() == '\n' {
        assert(indented(comma) == indented(text) + "    "@ + seq![',']);
        assert(field(text) =~= "(\n"@ + indented(text) + "    ,\n)"@);
    } else {
        assert(indented(comma) =~= indented(text) + seq![',']);
        assert(field(text) =~= "(\n"@ + indented(text) + ",\n)"@);
    }
}

/// A text of one line is set in once, at its beginning.
pub proof fn lemma_indented_one_line(text: Seq<char>)
    requires
        text.len() > 0,
        forall|i: int| 0 <= i < text.len() ==> text[i] != '\n',
    ensures
        indented(text) == "    "@ + text,
    decreases text.len(),
{
    let before = text.drop_last();
    if before.len() == 0 {
        assert(indented(before) =~= Seq::<char>::empty());
        assert(indented(text) =~= "    "@ + text);
    } else {
        lemma_indented_one_line(before);
        assert(indented(text) =~= "    "@ + text);
    }
}

/// Sets every line of `text` in by four spaces.
pub fn indent(text: &str) -> (out: String)
    ensures
        out@ == indented(text@),
{
    let length = text.unicode_len();
    let mut out = String::new();
    let mut start: usize = 0;
    let mut at: usize = 0;
    while at < length
        invariant
            length == text@.len(),
            start <= at <= length,
            start == 0 || text@[start - 1] == '\n',
            forall|j: int| start <= j < at ==> text@[j] != '\n',
            indented(text@.take(at as int)) == out@ + (if start < at {
                "    "@ + text@.subrange(start as int, at as int)
            } else {
                Seq::empty()
            }),
        decreases length - at,
    {
        let c = text.get_char(at);
        proof {
            let upto = text@.take(at + 1);
            assert(upto.drop_last() =~= text@.take(at as int));
            assert(text@.subrange(start as int, at + 1) =~= text@.subrange(
                start as int,
                at as int,
            ) + seq![c]);
            assert(indented(upto) =~= out@ + "    "@ + text@.subrange(start as int, at + 1));
        }
        at += 1;
        if c == '\n' {
            out.append("    ");
            out.append(text.substring_char(start, at));
            start = at;
        }
    }
    if start < at {
        out.append("    ");
        out.append(text.substring_char(start, at));
    }
    proof {
        assert(text@.take(at as int) =~= text@);
    }
    out
}

/// Appends the pretty debug form of a field to `out`.
pub fn push_field(out: &mut String, text: &str)
    ensures
        final(out)@ == old(out)@ + field(text@),
{
    let mut lines = String::from_str(text);
    lines.append(",\n");
    let body = indent(lines.as_str());
    out.append("(\n");
    out.append(body.as_str());
    out.append(")");
    assert(out@ =~= old(out)@ + field(text@));
}

} // verus!
