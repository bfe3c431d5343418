use vstd::prelude::*;

verus! {

/// A line without the newline that ends it, if it ends in one.
pub open spec fn without_newline(s: Seq<char>) -> Seq<char> {
    if s.len() > 0 && s.last() == '\n' {
        s.drop_last()
    } else {
        s
    }
}

/// A line without one trailing carriage return, if it has one.
pub open spec fn without_return(s: Seq<char>) -> Seq<char> {
    if s.len() > 0 && s.last() == '\r' {
        s.drop_last()
    } else {
        s
    }
}

/// The text of a line read from the wire: its ending newline removed, then
/// one optional carriage return before it.
pub open spec fn strip_end(s: Seq<char>) -> Seq<char> {
    without_return(without_newline(s))
}

/// A line that is nothing but a delimiter: a newline, optionally preceded by
/// a carriage return.
pub open spec fn is_bare_delimiter(s: Seq<char>) -> bool {
    s == seq!['\n'] || s == seq!['\r', '\n']
}

/// Text framed for the wire: the text followed by one newline.
pub open spec fn framed(s: Seq<char>) -> Seq<char> {
    s.push('\n')
}

/// Text framed for the one-shot sender: the text followed by one carriage return.
pub open spec fn framed_legacy(s: Seq<char>) -> Seq<char> {
    s.push('\r')
}

/// The text of a line: its ending newline removed, then one optional carriage
/// return before it.
pub fn strip_delimiters(line: &str) -> (r: String)
    ensures
        r@ == strip_end(line@),
{
    let n = line.unicode_len();
    let mut k: usize = n;
    if k > 0 && line.get_char(k - 1) == '\n' {
        k = k - 1;
    }
    assert(line@.subrange(0, k as int) =~= without_newline(line@));
    if k > 0 && line.get_char(k - 1) == '\r' {
        k = k - 1;
    }
    assert(line@.subrange(0, k as int) =~= strip_end(line@));
    String::from_str(line.substring_char(0, k))
}

/// The text followed by the newline that ends it on the wire.
pub fn frame_message(message: &str) -> (r: String)
    ensures
        r@ == framed(message@),
{
    proof {
        reveal_strlit("\n");
    }
    let r = String::from_str(message).concat("\n");
    assert(r@ =~= framed(message@));
    r
}

/// The text followed by the carriage return that the one-shot sender ends it with.
pub fn frame_legacy_message(message: &str) -> (r: String)
    ensures
        r@ == framed_legacy(message@),
{
    proof {
        reveal_strlit("\r");
    }
    let r = String::from_str(message).concat("\r");
    assert(r@ =~= framed_legacy(message@));
    r
}

/// A text that does not end in a carriage return survives framing and
/// stripping unchanged.
pub proof fn lemma_frame_then_strip(s: Seq<char>)
    requires
        s.len() > 0 ==> s.last() != '\r',
    ensures
        strip_end(framed(s)) == s,
{
    assert(framed(s).drop_last() == s);
}

/// A line that is nothing but a delimiter strips to nothing.
pub proof fn lemma_bare_delimiter_strips_to_empty(s: Seq<char>)
    requires
        is_bare_delimiter(s),
    ensures
        strip_end(s).len() == 0,
{
    if s == seq!['\r', '\n'] {
        assert(without_newline(s) =~= seq!['\r']);
    }
}

} // verus!
