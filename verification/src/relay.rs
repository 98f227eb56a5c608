//! The stream relay: a pure transcoder from raw terminal-escape-coded text to
//! styled text safe for display.
//!
//! A fixed palette of foreground-colour and bold control codes becomes an
//! opening styled-span marker, the reset code becomes the closing marker, any
//! other control sequence of the general shape (escape, `[`, non-terminal
//! characters, terminal `m`) is stripped entirely, and a truncated sequence
//! at the end of the input is dropped silently.  All other characters pass
//! through unchanged.

use vstd::prelude::*;

verus! {

/// The position of the first terminal character `m` at or after `i`, if any.
pub open spec fn seek_m(s: Seq<char>, i: int) -> Option<int>
    decreases s.len() - i,
{
    if i < 0 || i >= s.len() {
        None
    } else if s[i] == 'm' {
        Some(i)
    } else {
        seek_m(s, i + 1)
    }
}

/// What `seek_m` finds is the first terminal character in range.
pub proof fn lemma_seek_m_found(s: Seq<char>, i: int)
    ensures
        seek_m(s, i) matches Some(j) ==> i <= j < s.len() && s[j] == 'm' && (forall|k: int|
            i <= k < j ==> s[k] != 'm'),
        seek_m(s, i) is None && 0 <= i ==> forall|k: int| i <= k < s.len() ==> s[k] != 'm',
    decreases s.len() - i,
{
    if 0 <= i < s.len() && s[i] != 'm' {
        lemma_seek_m_found(s, i + 1);
    }
}

/// The styled-span marker for the body of one recognized control sequence,
/// and the empty sequence for every unrecognized body.
pub open spec fn span_for(body: Seq<char>) -> Seq<char> {
    if body.len() == 0 {
        "</span>"@
    } else if body.len() == 1 {
        if body[0] == '0' {
            "</span>"@
        } else if body[0] == '1' {
            "<span style=\"font-weight: bold\">"@
        } else {
            Seq::<char>::empty()
        }
    } else if body.len() == 2 && body[0] == '3' {
        if body[1] == '0' {
            "<span style=\"color: #000000\">"@
        } else if body[1] == '1' {
            "<span style=\"color: #ff0000\">"@
        } else if body[1] == '2' {
            "<span style=\"color: #00ff00\">"@
        } else if body[1] == '3' {
            "<span style=\"color: #ffff00\">"@
        } else if body[1] == '4' {
            "<span style=\"color: #0000ff\">"@
        } else if body[1] == '5' {
            "<span style=\"color: #ff00ff\">"@
        } else if body[1] == '6' {
            "<span style=\"color: #00ffff\">"@
        } else if body[1] == '7' {
            "<span style=\"color: #ffffff\">"@
        } else {
            Seq::<char>::empty()
        }
    } else if body.len() == 2 && body[0] == '9' {
        if body[1] == '0' {
            "<span style=\"color: #808080\">"@
        } else if body[1] == '1' {
            "<span style=\"color: #ff8080\">"@
        } else if body[1] == '2' {
            "<span style=\"color: #80ff80\">"@
        } else if body[1] == '3' {
            "<span style=\"color: #ffff80\">"@
        } else if body[1] == '4' {
            "<span style=\"color: #8080ff\">"@
        } else if body[1] == '5' {
            "<span style=\"color: #ff80ff\">"@
        } else if body[1] == '6' {
            "<span style=\"color: #80ffff\">"@
        } else if body[1] == '7' {
            "<span style=\"color: #ffffff\">"@
        } else {
            Seq::<char>::empty()
        }
    } else {
        Seq::<char>::empty()
    }
}

#[via_fn]
proof fn transcode_from_decreases(s: Seq<char>, i: int) {
    if 0 <= i < s.len() && s[i] == '\x1b' && i + 1 < s.len() && s[i + 1] == '[' {
        lemma_seek_m_found(s, i + 2);
    }
}

/// The transcoded remainder of `s` from position `i` on.
pub open spec fn transcode_from(s: Seq<char>, i: int) -> Seq<char>
    decreases s.len() - i,
        via transcode_from_decreases
{
    if i < 0 || i >= s.len() {
        Seq::<char>::empty()
    } else if s[i] == '\x1b' && i + 1 < s.len() && s[i + 1] == '[' {
        match seek_m(s, i + 2) {
            Some(j) => span_for(s.subrange(i + 2, j)) + transcode_from(s, j + 1),
            None => Seq::<char>::empty(),
        }
    } else {
        seq![s[i]] + transcode_from(s, i + 1)
    }
}

/// The whole transcoded text.
pub open spec fn transcode(s: Seq<char>) -> Seq<char> {
    transcode_from(s, 0)
}

/// The styled-span marker for the control-sequence body `text[lo..hi]`, or
/// nothing when the body is unrecognized.
fn span_marker(text: &str, lo: usize, hi: usize) -> (m: Option<&'static str>)
    requires
        lo <= hi <= text@.len(),
    ensures
        match m {
            Some(mk) => mk@ == span_for(text@.subrange(lo as int, hi as int)),
            None => span_for(text@.subrange(lo as int, hi as int)) == Seq::<char>::empty(),
        },
{
    let ghost body = text@.subrange(lo as int, hi as int);
    let len = hi - lo;
    if len == 0 {
        Some("</span>")
    } else if len == 1 {
        let c = text.get_char(lo);
        assert(body[0] == c);
        if c == '0' {
            Some("</span>")
        } else if c == '1' {
            Some("<span style=\"font-weight: bold\">")
        } else {
            None
        }
    } else if len == 2 {
        let c0 = text.get_char(lo);
        let c1 = text.get_char(lo + 1);
        assert(body[0] == c0 && body[1] == c1);
        if c0 == '3' {
            if c1 == '0' {
                Some("<span style=\"color: #000000\">")
            } else if c1 == '1' {
                Some("<span style=\"color: #ff0000\">")
            } else if c1 == '2' {
                Some("<span style=\"color: #00ff00\">")
            } else if c1 == '3' {
                Some("<span style=\"color: #ffff00\">")
            } else if c1 == '4' {
                Some("<span style=\"color: #0000ff\">")
            } else if c1 == '5' {
                Some("<span style=\"color: #ff00ff\">")
            } else if c1 == '6' {
                Some("<span style=\"color: #00ffff\">")
            } else if c1 == '7' {
                Some("<span style=\"color: #ffffff\">")
            } else {
                None
            }
        } else if c0 == '9' {
            if c1 == '0' {
                Some("<span style=\"color: #808080\">")
            } else if c1 == '1' {
                Some("<span style=\"color: #ff8080\">")
            } else if c1 == '2' {
                Some("<span style=\"color: #80ff80\">")
            } else if c1 == '3' {
                Some("<span style=\"color: #ffff80\">")
            } else if c1 == '4' {
                Some("<span style=\"color: #8080ff\">")
            } else if c1 == '5' {
                Some("<span style=\"color: #ff80ff\">")
            } else if c1 == '6' {
                Some("<span style=\"color: #80ffff\">")
            } else if c1 == '7' {
                Some("<span style=\"color: #ffffff\">")
            } else {
                None
            }
        } else {
            None
        }
    } else {
        None
    }
}

/// Turns one raw output line into styled text: recognized colour and bold
/// codes become span markers, every other escape sequence is stripped, and a
/// truncated trailing sequence is dropped.
pub fn ansi_to_html(text: &str) -> (r: String)
    ensures
        r@ == transcode(text@),
{
    let n = text.unicode_len();
    let mut out = String::new();
    let mut i: usize = 0;
    while i < n
        invariant
            n == text@.len(),
            i <= n,
            transcode(text@) == out@ + transcode_from(text@, i as int),
        decreases n - i,
    {
        let c = text.get_char(i);
        if c == '\x1b' && i + 1 < n && text.get_char(i + 1) == '[' {
            let ghost start = i as int;
            let mut j = i + 2;
            while j < n && text.get_char(j) != 'm'
                invariant
                    n == text@.len(),
                    start + 2 <= j as int <= n,
                    seek_m(text@, start + 2) == seek_m(text@, j as int),
                decreases n - j,
            {
                j = j + 1;
            }
            if j < n {
                assert(seek_m(text@, start + 2) == Some(j as int));
                let ghost before = out@;
                match span_marker(text, i + 2, j) {
                    Some(mk) => out.append(mk),
                    None => (),
                }
                proof {
                    assert(transcode_from(text@, start) == span_for(
                        text@.subrange(start + 2, j as int),
                    ) + transcode_from(text@, j as int + 1));
                    assert(out@ =~= before + span_for(text@.subrange(start + 2, j as int)));
                    assert(before + transcode_from(text@, start) =~= out@ + transcode_from(
                        text@,
                        j as int + 1,
                    ));
                }
                i = j + 1;
            } else {
                assert(seek_m(text@, start + 2) is None);
                assert(transcode_from(text@, start) =~= Seq::<char>::empty());
                proof {
                    assert(out@ + transcode_from(text@, start) =~= out@ + transcode_from(
                        text@,
                        n as int,
                    ));
                }
                i = n;
            }
        } else {
            let ghost before = out@;
            out.push(c);
            proof {
                assert(transcode_from(text@, i as int) == seq![text@[i as int]] + transcode_from(
                    text@,
                    i as int + 1,
                ));
                assert(before + transcode_from(text@, i as int) =~= out@ + transcode_from(
                    text@,
                    i as int + 1,
                ));
            }
            i = i + 1;
        }
    }
    proof {
        assert(out@ + transcode_from(text@, n as int) =~= out@);
    }
    out
}

/// A range with no escape character passes through the transcoder unchanged,
/// whatever follows it.
proof fn lemma_skip_clean(s: Seq<char>, i: int, p: int)
    requires
        0 <= i <= p <= s.len(),
        forall|k: int| i <= k < p ==> s[k] != '\x1b',
    ensures
        transcode_from(s, i) == s.subrange(i, p) + transcode_from(s, p),
    decreases p - i,
{
    if i == p {
        assert(s.subrange(i, p) =~= Seq::<char>::empty());
        assert(s.subrange(i, p) + transcode_from(s, p) =~= transcode_from(s, p));
    } else {
        lemma_skip_clean(s, i + 1, p);
        assert(seq![s[i]] + (s.subrange(i + 1, p) + transcode_from(s, p)) =~= s.subrange(i, p)
            + transcode_from(s, p));
    }
}

/// Transcoding text that contains no escape sequences is the identity.
pub proof fn lemma_no_escape_identity(s: Seq<char>)
    requires
        forall|k: int| 0 <= k < s.len() ==> s[k] != '\x1b',
    ensures
        transcode(s) == s,
{
    lemma_skip_clean(s, 0, s.len() as int);
    assert(transcode_from(s, s.len() as int) =~= Seq::<char>::empty());
    assert(s.subrange(0, s.len() as int) + transcode_from(s, s.len() as int) =~= s);
}

/// When everything up to `j` is non-terminal and `j` holds the terminal
/// character, the seek finds exactly `j`.
proof fn lemma_seek_m_exact(s: Seq<char>, q: int, j: int)
    requires
        0 <= q <= j < s.len(),
        s[j] == 'm',
        forall|k: int| q <= k < j ==> s[k] != 'm',
    ensures
        seek_m(s, q) == Some(j),
    decreases j - q,
{
    if q < j {
        lemma_seek_m_exact(s, q + 1, j);
    }
}

/// Seeking in a sequence agrees with seeking in a suffix-aligned copy.
proof fn lemma_seek_m_offset(s: Seq<char>, t: Seq<char>, off: int, q: int)
    requires
        0 <= off <= q,
        s.len() == off + t.len(),
        forall|k: int| off <= k < s.len() ==> s[k] == t[k - off],
    ensures
        seek_m(s, q) == match seek_m(t, q - off) {
            Some(j) => Some(j + off),
            None => None::<int>,
        },
    decreases s.len() - q,
{
    if q < s.len() && s[q] != 'm' {
        lemma_seek_m_offset(s, t, off, q + 1);
    }
}

/// From any position inside the aligned region, transcoding the whole
/// sequence and transcoding the copy agree.
proof fn lemma_transcode_offset(s: Seq<char>, t: Seq<char>, off: int, q: int)
    requires
        0 <= off <= q,
        s.len() == off + t.len(),
        forall|k: int| off <= k < s.len() ==> s[k] == t[k - off],
    ensures
        transcode_from(s, q) == transcode_from(t, q - off),
    decreases s.len() - q,
{
    if q >= s.len() {
    } else if s[q] == '\x1b' && q + 1 < s.len() && s[q + 1] == '[' {
        lemma_seek_m_offset(s, t, off, q + 2);
        match seek_m(t, q - off + 2) {
            Some(j) => {
                lemma_seek_m_found(t, q - off + 2);
                assert(s.subrange(q + 2, j + off) =~= t.subrange(q - off + 2, j));
                lemma_transcode_offset(s, t, off, j + off + 1);
            },
            None => {
            },
        }
    } else {
        lemma_transcode_offset(s, t, off, q + 1);
    }
}

/// An escape sequence whose body names no recognized style is stripped
/// entirely, and the characters around it are kept: text made of a clean
/// prefix, such a sequence, and a remainder transcodes to the prefix
/// followed by the transcoded remainder.
pub proof fn lemma_unrecognized_sequence_stripped(
    pre: Seq<char>,
    body: Seq<char>,
    post: Seq<char>,
)
    requires
        forall|k: int| 0 <= k < pre.len() ==> pre[k] != '\x1b',
        forall|k: int| 0 <= k < body.len() ==> body[k] != 'm',
        span_for(body) == Seq::<char>::empty(),
    ensures
        transcode(pre + (seq!['\x1b', '['] + body + seq!['m']) + post) == pre + transcode(post),
{
    let mid = seq!['\x1b', '['] + body + seq!['m'];
    let s = pre + mid + post;
    let p = pre.len() as int;
    let b = body.len() as int;
    assert forall|k: int| 0 <= k < p implies s[k] == pre[k] by {}
    lemma_skip_clean(s, 0, p);
    assert(s.subrange(0, p) =~= pre);
    assert(s[p] == '\x1b' && s[p + 1] == '[');
    assert forall|k: int| p + 2 <= k < p + 2 + b implies s[k] == body[k - p - 2] by {}
    assert(s[p + 2 + b] == 'm');
    lemma_seek_m_exact(s, p + 2, p + 2 + b);
    assert(transcode_from(s, p) == span_for(s.subrange(p + 2, p + 2 + b)) + transcode_from(
        s,
        p + 3 + b,
    ));
    assert(s.subrange(p + 2, p + 2 + b) =~= body);
    assert forall|k: int| p + 3 + b <= k < s.len() implies s[k] == post[k - (p + 3 + b)] by {}
    lemma_transcode_offset(s, post, p + 3 + b, p + 3 + b);
    assert(transcode_from(s, p) =~= transcode(post));
    assert(transcode(s) =~= pre + transcode(post));
}

} // verus!
