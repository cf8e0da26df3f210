//! Circular text scrolling: a stateless map from a text field and a frame
//! tick to the fixed-width slice of the field that is visible this frame.

use vstd::arithmetic::div_mod::{
    lemma_mod_add_multiples_vanish, lemma_mod_division_less_than_divisor, lemma_small_mod,
};
use vstd::prelude::*;

verus! {

/// The text with the fixed four-blank gap appended; the window slides over
/// this padded form so that the tail of the text is separated from its head
/// when the scroll wraps around.
pub open spec fn pad4(t: Seq<char>) -> Seq<char> {
    t.push(' ').push(' ').push(' ').push(' ')
}

/// The visible window of a field at a given tick: the four-character
/// contiguous slice of the padded text starting at `tick mod len(t)`.
/// An empty field has no rotation to show and yields four blanks.
pub open spec fn window_spec(t: Seq<char>, tick: nat) -> Seq<char> {
    if t.len() == 0 {
        seq![' ', ' ', ' ', ' ']
    } else {
        pad4(t).subrange((tick % t.len()) as int, (tick % t.len()) as int + 4)
    }
}

/// The scroll window is total: whatever the text and the tick, the visible
/// slice has exactly the window width, with short fields handled by the
/// trailing padding rather than by a degenerate modulus.
pub proof fn lemma_window_total(t: Seq<char>, tick: nat)
    ensures
        window_spec(t, tick).len() == 4,
{
    if t.len() > 0 {
        lemma_mod_division_less_than_divisor(tick as int, t.len() as int);
    }
}

/// Cyclic scrolling law: for a field at least as long as the window, every
/// window is a contiguous four-character slice of the padded text; the ticks
/// `0 .. len(t)` visit each start offset exactly once (tick `s` starts at
/// offset `s`); and the whole cycle repeats with period `len(t)`.
pub proof fn lemma_window_cyclic(t: Seq<char>, tick: nat)
    requires
        t.len() >= 4,
    ensures
        window_spec(t, tick) == pad4(t).subrange(
            (tick % t.len()) as int,
            (tick % t.len()) as int + 4,
        ),
        forall|s: nat|
            s < t.len() ==> window_spec(t, s) == pad4(t).subrange(s as int, s as int + 4),
        window_spec(t, tick + t.len()) == window_spec(t, tick),
{
    assert forall|s: nat| s < t.len() implies window_spec(t, s) == pad4(t).subrange(
        s as int,
        s as int + 4,
    ) by {
        lemma_small_mod(s, t.len());
    }
    lemma_mod_add_multiples_vanish(tick as int, t.len() as int);
    assert((tick + t.len()) % t.len() == tick % t.len());
}

/// The visible slice of `text` at frame `tick`: four characters of the
/// padded text starting at `tick mod len(text)`, or four blanks for an
/// empty field. Total: no text length or tick value can fault it.
pub fn window(text: &str, tick: u64) -> (r: String)
    ensures
        r@ == window_spec(text@, tick as nat),
        r@.len() == 4,
{
    proof {
        lemma_window_total(text@, tick as nat);
        reveal_strlit("    ");
    }
    let n = text.unicode_len();
    if n == 0 {
        let r = String::from_str("    ");
        proof {
            assert(r@ =~= window_spec(text@, tick as nat));
        }
        r
    } else {
        proof {
            lemma_mod_division_less_than_divisor(tick as int, n as int);
        }
        let start = (tick % (n as u64)) as usize;
        if n - start >= 4 {
            let w = text.substring_char(start, start + 4);
            let r = String::from_str(w);
            proof {
                assert(r@ =~= window_spec(text@, tick as nat));
            }
            r
        } else {
            let tail = text.substring_char(start, n);
            let mut r = String::from_str(tail);
            let fill = "    ".substring_char(0, 4 - (n - start));
            r.append(fill);
            proof {
                assert(r@ =~= window_spec(text@, tick as nat));
            }
            r
        }
    }
}

} // verus!
