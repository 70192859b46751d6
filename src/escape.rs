use vstd::prelude::*;
use vstd::string::*;

verus! {

/// What one character becomes in XML character data.
pub open spec fn escape_char(c: char) -> Seq<char> {
    if c == '&' {
        "&amp;"@
    } else if c == '<' {
        "&lt;"@
    } else if c == '>' {
        "&gt;"@
    } else if c == '"' {
        "&quot;"@
    } else if c == '\'' {
        "&apos;"@
    } else {
        seq![c]
    }
}

/// `s` with each markup-reserved character replaced by its entity.
pub open spec fn xml_escaped(s: Seq<char>) -> Seq<char>
    decreases s.len(),
{
    if s.len() == 0 {
        seq![]
    } else {
        xml_escaped(s.drop_last()) + escape_char(s.last())
    }
}

/// The entity that stands for `c`, when `c` is reserved.
fn entity(c: char) -> (r: Option<&'static str>)
    ensures
        r matches Some(e) ==> e@ == escape_char(c),
        r is None ==> escape_char(c) == seq![c],
{
    if c == '&' {
        Some("&amp;")
    } else if c == '<' {
        Some("&lt;")
    } else if c == '>' {
        Some("&gt;")
    } else if c == '"' {
        Some("&quot;")
    } else if c == '\'' {
        Some("&apos;")
    } else {
        None
    }
}

/// Escapes `&`, `<`, `>`, `"` and `'` so that `s` can stand in XML text.
pub fn xml_escape(s: &str) -> (r: String)
    ensures
        r@ == xml_escaped(s@),
{
    let n = s.unicode_len();
    let mut out = String::new();
    let mut start: usize = 0;
    let mut i: usize = 0;
    while i < n
        invariant
            n == s@.len(),
            start <= i <= n,
            out@ + s@.subrange(start as int, i as int) == xml_escaped(s@.subrange(0, i as int)),
        decreases n - i,
    {
        let c = s.get_char(i);
        proof {
            let prefix = s@.subrange(0, i as int + 1);
            assert(prefix.drop_last() =~= s@.subrange(0, i as int));
            assert(prefix.last() == c);
            assert(s@.subrange(start as int, i as int + 1) =~= s@.subrange(
                start as int,
                i as int,
            ).push(c));
        }
        match entity(c) {
            Some(e) => {
                out.append(s.substring_char(start, i));
                out.append(e);
                start = i + 1;
                assert(s@.subrange(start as int, start as int) =~= seq![]);
                assert(out@ + seq![] =~= out@);
            },
            None => {
                assert(out@ + s@.subrange(start as int, i as int + 1) =~= (out@ + s@.subrange(
                    start as int,
                    i as int,
                )) + seq![c]);
            },
        }
        i = i + 1;
    }
    out.append(s.substring_char(start, n));
    assert(s@.subrange(0, n as int) =~= s@);
    out
}

} // verus!
