//! Translation of a game server's message-of-the-day formatting codes into
//! the chat surface's markdown: style codes open a markdown wrapper, colour
//! and reset codes close every open wrapper, and unknown codes pass through
//! unchanged. Every wrapper still open at the end is closed.

use vstd::prelude::*;
use crate::text::push_char;

verus! {

/// A section-sign code that resets the style: a colour digit, `k` or `r`.
pub open spec fn spec_is_reset_code(c: char) -> bool {
    c == '0' || c == '1' || c == '2' || c == '3' || c == '4' || c == '5' || c == '6' || c == '7'
        || c == '8' || c == '9' || c == 'a' || c == 'b' || c == 'c' || c == 'd' || c == 'e'
        || c == 'f' || c == 'k' || c == 'r'
}

fn is_reset_code(c: char) -> (r: bool)
    ensures
        r == spec_is_reset_code(c),
{
    match c {
        '0' | '1' | '2' | '3' | '4' | '5' | '6' | '7' | '8' | '9' | 'a' | 'b' | 'c' | 'd' | 'e'
            | 'f' | 'k' | 'r' => true,
        _ => false,
    }
}

/// The markdown wrapper a style code opens, if it opens one.
pub open spec fn spec_style_wrapper(c: char) -> Option<Seq<char>> {
    if c == 'l' {
        Some("**"@)
    } else if c == 'n' {
        Some("__"@)
    } else if c == 'm' {
        Some("~~"@)
    } else if c == 'o' {
        Some("*"@)
    } else {
        None
    }
}

/// The closers of every open wrapper, most recently opened first.
pub open spec fn spec_closers(stack: Seq<Seq<char>>) -> Seq<char>
    decreases stack.len(),
{
    if stack.len() == 0 {
        Seq::empty()
    } else {
        stack.last() + spec_closers(stack.drop_last())
    }
}

/// One character of input applied to the translation state: the text built
/// so far, the open wrappers, and whether a section sign is pending.
pub open spec fn spec_motd_step(
    st: (Seq<char>, Seq<Seq<char>>, bool),
    c: char,
) -> (Seq<char>, Seq<Seq<char>>, bool) {
    let (out, stack, token) = st;
    if c == '§' {
        (out, stack, true)
    } else if token {
        if spec_is_reset_code(c) {
            if stack.len() > 0 {
                (out + spec_closers(stack) + seq!['\u{200B}'], Seq::empty(), false)
            } else {
                (out, stack, false)
            }
        } else if spec_style_wrapper(c) is Some {
            let w = spec_style_wrapper(c)->Some_0;
            (out + w, stack.push(w), false)
        } else {
            (out + seq!['§', c], stack, false)
        }
    } else {
        (out.push(c), stack, false)
    }
}

/// The translation state after the first `i` characters of `s`.
pub open spec fn spec_motd_fold(s: Seq<char>, i: int) -> (Seq<char>, Seq<Seq<char>>, bool)
    decreases i,
{
    if i <= 0 {
        (Seq::empty(), Seq::empty(), false)
    } else {
        spec_motd_step(spec_motd_fold(s, i - 1), s[i - 1])
    }
}

/// The whole translation: the folded text with every wrapper still open
/// closed at the end.
pub open spec fn spec_parse_motd(s: Seq<char>) -> Seq<char> {
    let st = spec_motd_fold(s, s.len() as int);
    st.0 + spec_closers(st.1)
}

/// Appends the closers of every open wrapper, most recently opened first,
/// and leaves no wrapper open.
fn flush_closers(res: &mut String, stack: &mut Vec<&'static str>)
    ensures
        final(res)@ == old(res)@ + spec_closers(old(stack)@.map_values(|t: &'static str| t@)),
        final(stack)@.len() == 0,
{
    let ghost out0 = res@;
    let ghost stack0 = stack@.map_values(|t: &'static str| t@);
    proof {
        assert(res@ + spec_closers(stack@.map_values(|t: &'static str| t@)) =~= out0
            + spec_closers(stack0));
    }
    while stack.len() > 0
        invariant
            res@ + spec_closers(stack@.map_values(|t: &'static str| t@)) == out0 + spec_closers(
                stack0,
            ),
        decreases stack@.len(),
    {
        let ghost pre = stack@.map_values(|t: &'static str| t@);
        let top = stack.pop().unwrap();
        res.append(top);
        proof {
            let cur = stack@.map_values(|t: &'static str| t@);
            assert(cur =~= pre.drop_last());
            assert(top@ == pre.last());
            assert(res@ + spec_closers(cur) =~= out0 + spec_closers(stack0));
        }
    }
    proof {
        assert(spec_closers(stack@.map_values(|t: &'static str| t@)) =~= Seq::<char>::empty());
        assert(res@ =~= out0 + spec_closers(stack0));
    }
}

/// Translates a message of the day into markdown, as `spec_parse_motd`
/// describes.
pub fn parse_motd(motd: &str) -> (r: String)
    ensures
        r@ == spec_parse_motd(motd@),
{
    let n = motd.unicode_len();
    let mut res = String::new();
    let mut stack: Vec<&'static str> = Vec::new();
    let mut token = false;
    let mut i: usize = 0;
    proof {
        assert(stack@.map_values(|t: &'static str| t@) =~= Seq::<Seq<char>>::empty());
    }
    while i < n
        invariant
            0 <= i <= n,
            n == motd@.len(),
            res@ == spec_motd_fold(motd@, i as int).0,
            stack@.map_values(|t: &'static str| t@) == spec_motd_fold(motd@, i as int).1,
            token == spec_motd_fold(motd@, i as int).2,
        decreases n - i,
    {
        let ghost st = spec_motd_fold(motd@, i as int);
        let c = motd.get_char(i);
        if c == '§' {
            token = true;
        } else if token {
            token = false;
            if is_reset_code(c) {
                if stack.len() > 0 {
                    flush_closers(&mut res, &mut stack);
                    push_char(&mut res, '\u{200B}');
                    proof {
                        assert(res@ =~= st.0 + spec_closers(st.1) + seq!['\u{200B}']);
                    }
                }
            } else if c == 'l' {
                res.append("**");
                stack.push("**");
                proof {
                    assert(stack@.map_values(|t: &'static str| t@) =~= st.1.push("**"@));
                }
            } else if c == 'n' {
                res.append("__");
                stack.push("__");
                proof {
                    assert(stack@.map_values(|t: &'static str| t@) =~= st.1.push("__"@));
                }
            } else if c == 'm' {
                res.append("~~");
                stack.push("~~");
                proof {
                    assert(stack@.map_values(|t: &'static str| t@) =~= st.1.push("~~"@));
                }
            } else if c == 'o' {
                res.append("*");
                stack.push("*");
                proof {
                    assert(stack@.map_values(|t: &'static str| t@) =~= st.1.push("*"@));
                }
            } else {
                push_char(&mut res, '§');
                push_char(&mut res, c);
                proof {
                    assert(res@ =~= st.0 + seq!['§', c]);
                }
            }
        } else {
            push_char(&mut res, c);
        }
        i = i + 1;
    }
    flush_closers(&mut res, &mut stack);
    res
}

} // verus!
