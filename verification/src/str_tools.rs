//! Tools for making platform-independent string handling work properly.
//!
//! Text crosses the toolkit boundary in the line-ending convention of the
//! platform: some toolkits store CRLF pairs where the host side uses a lone
//! LF. Every text field converts on the way out with [`insert_dual_endings`]
//! and on the way back with [`strip_dual_endings`], so host code only ever
//! sees LF endings.

use vstd::prelude::*;
use vstd::string::StrSliceExecFns;
use vstd::string::StringExecFns;

verus! {

/// Relies on `String::push`: appends exactly the given character at the end.
pub assume_specification[ std::string::String::push ](s: &mut String, ch: char)
    ensures
        final(s)@ == old(s)@.push(ch),
;

/// The line-ending convention a toolkit stores text in.
#[derive(Clone, Copy, Debug, PartialEq, Eq, Structural)]
pub enum LineEnding {
    /// Text is stored with lone LF endings; it crosses the boundary unchanged.
    Lf,
    /// Text is stored with CRLF pairs; LF endings are widened on the way out
    /// and collapsed on the way back.
    CrLf,
}

/// `s` with every CRLF pair collapsed to a single LF.
pub open spec fn stripped(s: Seq<char>) -> Seq<char>
    decreases s.len(),
{
    if s.len() == 0 {
        Seq::empty()
    } else if s[0] == '\r' && s.len() >= 2 && s[1] == '\n' {
        seq!['\n'] + stripped(s.skip(2))
    } else {
        seq![s[0]] + stripped(s.skip(1))
    }
}

/// `s` with a CR put before every LF that is not already led by one; `cr`
/// says whether the character just before `s` was a CR.
pub open spec fn inserted_from(s: Seq<char>, cr: bool) -> Seq<char>
    decreases s.len(),
{
    if s.len() == 0 {
        Seq::empty()
    } else if s[0] == '\n' && !cr {
        seq!['\r', '\n'] + inserted_from(s.skip(1), false)
    } else {
        seq![s[0]] + inserted_from(s.skip(1), s[0] == '\r')
    }
}

/// `s` with a CR put before every LF that is not already led by one.
pub open spec fn inserted(s: Seq<char>) -> Seq<char> {
    inserted_from(s, false)
}

/// Whether `s` contains a CRLF pair somewhere.
pub open spec fn has_crlf(s: Seq<char>) -> bool {
    exists|i: int| 0 <= i < s.len() - 1 && #[trigger] s[i] == '\r' && s[i + 1] == '\n'
}

/// Whether every LF in `s` is led by a CR — the form a CRLF platform stores.
pub open spec fn dual_ended(s: Seq<char>) -> bool {
    forall|i: int| 0 <= i < s.len() && #[trigger] s[i] == '\n' ==> i > 0 && s[i - 1] == '\r'
}

/// Replaces every occurrence of `"\r\n"` with a single newline `\n`.
pub fn strip_dual_endings(s: &str) -> (r: String)
    ensures
        r@ == stripped(s@),
{
    let n = s.unicode_len();
    let mut out = String::new();
    let mut i: usize = 0;
    proof {
        assert(s@.skip(0) =~= s@);
        assert(out@ + stripped(s@) =~= stripped(s@));
    }
    while i < n
        invariant
            n == s@.len(),
            i <= n,
            stripped(s@) == out@ + stripped(s@.skip(i as int)),
        decreases n - i,
    {
        let c = s.get_char(i);
        if c == '\r' && i + 1 < n && s.get_char(i + 1) == '\n' {
            out.push('\n');
            proof {
                assert(s@.skip(i as int).skip(2) =~= s@.skip(i as int + 2));
                assert(out@ + stripped(s@.skip(i as int + 2)) =~= stripped(s@));
            }
            i = i + 2;
        } else {
            out.push(c);
            proof {
                assert(s@.skip(i as int).skip(1) =~= s@.skip(i as int + 1));
                assert(out@ + stripped(s@.skip(i as int + 1)) =~= stripped(s@));
            }
            i = i + 1;
        }
    }
    proof {
        assert(s@.skip(n as int) =~= Seq::<char>::empty());
        assert(out@ =~= stripped(s@));
    }
    out
}

/// Replaces every occurrence of `"\n"` not led by `"\r"` with `"\r\n"`.
pub fn insert_dual_endings(s: &str) -> (r: String)
    ensures
        r@ == inserted(s@),
{
    let n = s.unicode_len();
    let mut out = String::new();
    let mut cr = false;
    let mut i: usize = 0;
    proof {
        assert(s@.skip(0) =~= s@);
        assert(out@ + inserted(s@) =~= inserted(s@));
    }
    while i < n
        invariant
            n == s@.len(),
            i <= n,
            cr == (i > 0 && s@[i as int - 1] == '\r'),
            inserted(s@) == out@ + inserted_from(s@.skip(i as int), cr),
        decreases n - i,
    {
        let c = s.get_char(i);
        if c == '\n' && !cr {
            out.push('\r');
            out.push('\n');
        } else {
            out.push(c);
        }
        proof {
            assert(s@.skip(i as int).skip(1) =~= s@.skip(i as int + 1));
            assert(inserted(s@) == (if c == '\n' && !cr {
                out@ + inserted_from(s@.skip(i as int + 1), false)
            } else {
                out@ + inserted_from(s@.skip(i as int + 1), c == '\r')
            }));
        }
        cr = c == '\r';
        i = i + 1;
    }
    proof {
        assert(s@.skip(n as int) =~= Seq::<char>::empty());
        assert(out@ =~= inserted(s@));
    }
    out
}

/// What a host string looks like once stored under the given convention.
pub open spec fn to_toolkit_spec(s: Seq<char>, convention: LineEnding) -> Seq<char> {
    match convention {
        LineEnding::Lf => s,
        LineEnding::CrLf => inserted(s),
    }
}

/// What a stored text looks like once handed back to the host.
pub open spec fn from_toolkit_spec(s: Seq<char>, convention: LineEnding) -> Seq<char> {
    match convention {
        LineEnding::Lf => s,
        LineEnding::CrLf => stripped(s),
    }
}

/// Converts a host string to the text a toolkit using the given convention
/// stores, widening LF endings where the convention asks for CRLF pairs.
pub fn to_toolkit_string(s: &str, convention: LineEnding) -> (r: String)
    ensures
        r@ == to_toolkit_spec(s@, convention),
{
    match convention {
        LineEnding::Lf => String::from_str(s),
        LineEnding::CrLf => insert_dual_endings(s),
    }
}

/// Converts text stored by a toolkit using the given convention back to a
/// host string guaranteed to use LF line endings.
pub fn from_toolkit_string(s: &str, convention: LineEnding) -> (r: String)
    ensures
        r@ == from_toolkit_spec(s@, convention),
{
    match convention {
        LineEnding::Lf => String::from_str(s),
        LineEnding::CrLf => strip_dual_endings(s),
    }
}

proof fn lemma_skip_keeps_no_crlf(s: Seq<char>)
    requires
        !has_crlf(s),
        s.len() > 0,
    ensures
        !has_crlf(s.skip(1)),
{
    assert forall|i: int| 0 <= i < s.skip(1).len() - 1 implies !(#[trigger] s.skip(1)[i] == '\r'
        && s.skip(1)[i + 1] == '\n') by {
        assert(s.skip(1)[i] == s[i + 1]);
        assert(s.skip(1)[i + 1] == s[i + 2]);
    }
}

/// The first character that comes out of insertion after a CR is the first
/// character that went in.
proof fn lemma_inserted_after_cr_first(s: Seq<char>)
    requires
        s.len() > 0,
    ensures
        inserted_from(s, true).len() > 0,
        inserted_from(s, true)[0] == s[0],
{
}

proof fn lemma_strip_inserted_from(s: Seq<char>, cr: bool)
    requires
        !has_crlf(s),
        cr ==> s.len() == 0 || s[0] != '\n',
    ensures
        stripped(inserted_from(s, cr)) == s,
    decreases s.len(),
{
    if s.len() == 0 {
        assert(stripped(inserted_from(s, cr)) =~= s);
    } else {
        let c = s[0];
        let rest = s.skip(1);
        lemma_skip_keeps_no_crlf(s);
        if c == '\n' && !cr {
            let tail = inserted_from(rest, false);
            lemma_strip_inserted_from(rest, false);
            assert(inserted_from(s, cr) == seq!['\r', '\n'] + tail);
            assert((seq!['\r', '\n'] + tail)[0] == '\r');
            assert((seq!['\r', '\n'] + tail)[1] == '\n');
            assert((seq!['\r', '\n'] + tail).skip(2) =~= tail);
            assert(stripped(inserted_from(s, cr)) == seq!['\n'] + rest);
            assert(seq!['\n'] + rest =~= s);
        } else {
            let tail = inserted_from(rest, c == '\r');
            assert(inserted_from(s, cr) == seq![c] + tail);
            if c == '\r' {
                // A CRLF pair in `s` is ruled out, so the character after
                // this CR (if any) is not an LF and stripping cannot merge
                // the two.
                if rest.len() > 0 {
                    assert(!(s[0] == '\r' && s[1] == '\n'));
                    assert(rest[0] != '\n');
                    lemma_inserted_after_cr_first(rest);
                    assert(tail[0] == rest[0]);
                    assert((seq![c] + tail)[1] == tail[0]);
                }
                lemma_strip_inserted_from(rest, true);
                assert((seq![c] + tail).skip(1) =~= tail);
                assert(stripped(inserted_from(s, cr)) == seq![c] + rest);
                assert(seq![c] + rest =~= s);
            } else {
                lemma_strip_inserted_from(rest, false);
                assert((seq![c] + tail)[0] != '\r');
                assert((seq![c] + tail).skip(1) =~= tail);
                assert(stripped(inserted_from(s, cr)) == seq![c] + rest);
                assert(seq![c] + rest =~= s);
            }
        }
    }
}

/// Law: a host string with no CRLF pair of its own crosses the boundary and
/// comes back unchanged, under either line-ending convention.
pub proof fn lemma_toolkit_round_trip(s: Seq<char>, convention: LineEnding)
    requires
        !has_crlf(s),
    ensures
        from_toolkit_spec(to_toolkit_spec(s, convention), convention) == s,
{
    match convention {
        LineEnding::Lf => {
        },
        LineEnding::CrLf => {
            lemma_strip_inserted_from(s, false);
        },
    }
}

proof fn lemma_inserted_from_dual(s: Seq<char>, cr: bool)
    ensures
        forall|i: int|
            0 <= i < inserted_from(s, cr).len() && #[trigger] inserted_from(s, cr)[i] == '\n' ==> (
            i > 0 && inserted_from(s, cr)[i - 1] == '\r') || (i == 0 && cr),
    decreases s.len(),
{
    if s.len() == 0 {
    } else {
        let c = s[0];
        let rest = s.skip(1);
        if c == '\n' && !cr {
            lemma_inserted_from_dual(rest, false);
            let t = seq!['\r', '\n'] + inserted_from(rest, false);
            assert forall|i: int| 0 <= i < t.len() && #[trigger] t[i] == '\n' implies (i > 0 && t[i
                - 1] == '\r') || (i == 0 && cr) by {
                if i >= 2 {
                    assert(t[i] == inserted_from(rest, false)[i - 2]);
                }
            }
        } else {
            lemma_inserted_from_dual(rest, c == '\r');
            let t = seq![c] + inserted_from(rest, c == '\r');
            assert forall|i: int| 0 <= i < t.len() && #[trigger] t[i] == '\n' implies (i > 0 && t[i
                - 1] == '\r') || (i == 0 && cr) by {
                if i >= 1 {
                    assert(t[i] == inserted_from(rest, c == '\r')[i - 1]);
                }
            }
        }
    }
}

/// Law: inserting dual endings always yields dual-ended text — every LF in
/// what goes out to a CRLF platform is led by a CR.
pub proof fn lemma_insert_yields_dual_ended(s: Seq<char>)
    ensures
        dual_ended(inserted(s)),
{
    lemma_inserted_from_dual(s, false);
}

proof fn lemma_inserted_from_idempotent(s: Seq<char>, cr: bool)
    requires
        forall|i: int|
            0 <= i < s.len() && #[trigger] s[i] == '\n' ==> (i > 0 && s[i - 1] == '\r') || (i == 0
                && cr),
    ensures
        inserted_from(s, cr) == s,
    decreases s.len(),
{
    if s.len() == 0 {
        assert(inserted_from(s, cr) =~= s);
    } else {
        let c = s[0];
        let rest = s.skip(1);
        assert forall|i: int|
            0 <= i < rest.len() && #[trigger] rest[i] == '\n' implies (i > 0 && rest[i - 1] == '\r')
            || (i == 0 && c == '\r') by {
            assert(rest[i] == s[i + 1]);
            if i > 0 {
                assert(rest[i - 1] == s[i]);
            }
        }
        lemma_inserted_from_idempotent(rest, c == '\r');
        assert(inserted_from(s, cr) == seq![c] + rest);
        assert(seq![c] + rest =~= s);
    }
}

/// Law: inserting dual endings into text that is already dual-ended changes
/// nothing, so converting twice is the same as converting once.
pub proof fn lemma_insert_idempotent(s: Seq<char>)
    requires
        dual_ended(s),
    ensures
        inserted(s) == s,
{
    lemma_inserted_from_idempotent(s, false);
}

} // verus!
