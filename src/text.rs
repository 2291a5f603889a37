use vstd::prelude::*;
use vstd::string::StringExecFns;

verus! {

/// Longest line, in characters, that is shown unchanged.
pub const MAX_LINE_CHARS: usize = 23;

/// Characters kept from a line that is too long, before the ellipsis.
pub const KEPT_CHARS: usize = 22;

/// The text shown for a line: unchanged when it has at most 23 characters,
/// else its first 22 characters followed by two periods.
pub open spec fn displayed_line(s: Seq<char>) -> Seq<char> {
    if s.len() > MAX_LINE_CHARS {
        s.subrange(0, KEPT_CHARS as int) + ".."@
    } else {
        s
    }
}

/// Relies on String::push: appends one character.
#[verifier::external_body]
fn push_char(s: &mut String, c: char)
    ensures
        final(s)@ == old(s)@.push(c),
{
    s.push(c)
}

/// The line as it is drawn: cut to 22 characters plus ".." when it has more
/// than 23. Lengths count characters, not bytes.
pub fn truncate_line(s: &str) -> (r: String)
    ensures
        r@ == displayed_line(s@),
{
    let mut head = String::new();
    let mut count: usize = 0;
    for c in it: s.chars()
        invariant
            count as int == if it.index() < MAX_LINE_CHARS + 1 { it.index() as int } else { MAX_LINE_CHARS + 1 },
            head@ == it.seq().take(if it.index() < KEPT_CHARS { it.index() as int } else { KEPT_CHARS as int }),
    {
        if count < KEPT_CHARS {
            proof {
                assert(it.seq().take(it.index() + 1) =~= it.seq().take(it.index() as int).push(c));
            }
            push_char(&mut head, c);
        }
        if count <= MAX_LINE_CHARS {
            count = count + 1;
        }
    }
    if count > MAX_LINE_CHARS {
        head.append("..");
        head
    } else {
        String::from_str(s)
    }
}

} // verus!
