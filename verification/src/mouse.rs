//! The commands that switch mouse capture on and off.
//!
//! Capture is the terminal's private modes 1000 (button press and release), 1002
//! (motion while a button is held), 1015 (urxvt coordinates) and 1006 (SGR
//! coordinates), each switched with a control sequence `ESC [ ? <mode> h` (on) or
//! `ESC [ ? <mode> l` (off).

use vstd::prelude::*;

verus! {

/// The private modes of mouse capture, in the order in which they are switched on.
pub open spec fn mouse_modes() -> Seq<Seq<char>> {
    seq![
        seq!['1', '0', '0', '0'],
        seq!['1', '0', '0', '2'],
        seq!['1', '0', '1', '5'],
        seq!['1', '0', '0', '6'],
    ]
}

/// The control sequence that switches one private mode on (`set`) or off.
pub open spec fn mode_sequence(mode: Seq<char>, set: bool) -> Seq<char> {
    seq!['\x1B', '[', '?'] + mode + seq![if set { 'h' } else { 'l' }]
}

/// The control sequences that switch the given modes, one after the other.
pub open spec fn modes_sequence(modes: Seq<Seq<char>>, set: bool) -> Seq<char>
    decreases modes.len(),
{
    if modes.len() == 0 {
        Seq::empty()
    } else {
        modes_sequence(modes.drop_last(), set) + mode_sequence(modes.last(), set)
    }
}

/// Appends the control sequence that switches `mode` on (`set`) or off.
fn push_mode(out: &mut String, mode: &str, set: bool)
    ensures
        final(out)@ == old(out)@ + mode_sequence(mode@, set),
{
    out.append("\x1B[?");
    out.append(mode);
    if set {
        out.append("h");
    } else {
        out.append("l");
    }
    proof {
        reveal_strlit("\x1B[?");
        reveal_strlit("h");
        reveal_strlit("l");
        assert(final(out)@ =~= old(out)@ + mode_sequence(mode@, set));
    }
}

/// A command that enables mouse mode
pub struct EnableMouseCapture;

/// A command that disables mouse event monitoring.
pub struct DisableMouseCapture;

impl EnableMouseCapture {
    /// The ANSI code of the command: the capture modes switched on, in order.
    pub fn ansi_code(&self) -> (code: String)
        ensures
            code@ == modes_sequence(mouse_modes(), true),
    {
        let mut code = String::new();
        push_mode(&mut code, "1000", true);
        push_mode(&mut code, "1002", true);
        push_mode(&mut code, "1015", true);
        push_mode(&mut code, "1006", true);
        proof {
            reveal_strlit("1000");
            reveal_strlit("1002");
            reveal_strlit("1015");
            reveal_strlit("1006");
            reveal_with_fuel(modes_sequence, 5);
            assert(mouse_modes().drop_last().drop_last().drop_last().drop_last() =~= Seq::empty());
            assert(code@ =~= modes_sequence(mouse_modes(), true));
        }
        code
    }
}

impl DisableMouseCapture {
    /// The ANSI code of the command: the same modes that `EnableMouseCapture`
    /// switches on, switched off in the reverse order.
    pub fn ansi_code(&self) -> (code: String)
        ensures
            code@ == modes_sequence(mouse_modes().reverse(), false),
    {
        let mut code = String::new();
        push_mode(&mut code, "1006", false);
        push_mode(&mut code, "1015", false);
        push_mode(&mut code, "1002", false);
        push_mode(&mut code, "1000", false);
        proof {
            reveal_strlit("1000");
            reveal_strlit("1002");
            reveal_strlit("1015");
            reveal_strlit("1006");
            reveal_with_fuel(modes_sequence, 5);
            let r = mouse_modes().reverse();
            assert(r =~= seq![
                seq!['1', '0', '0', '6'],
                seq!['1', '0', '1', '5'],
                seq!['1', '0', '0', '2'],
                seq!['1', '0', '0', '0'],
            ]);
            assert(code@ =~= modes_sequence(r, false));
        }
        code
    }
}

/// Ending mouse capture undoes starting it: `EnableMouseCapture::ansi_code` is the
/// four capture modes switched on, one after the other, and
/// `DisableMouseCapture::ansi_code` is the same four modes switched off, in the
/// reverse order; the two codes name the same set of modes.
pub proof fn disable_undoes_enable()
    ensures
        modes_sequence(mouse_modes(), true) == mode_sequence(mouse_modes()[0], true)
            + mode_sequence(mouse_modes()[1], true) + mode_sequence(mouse_modes()[2], true)
            + mode_sequence(mouse_modes()[3], true),
        modes_sequence(mouse_modes().reverse(), false) == mode_sequence(mouse_modes()[3], false)
            + mode_sequence(mouse_modes()[2], false) + mode_sequence(mouse_modes()[1], false)
            + mode_sequence(mouse_modes()[0], false),
        mouse_modes().reverse().to_set() == mouse_modes().to_set(),
        mouse_modes().reverse().len() == mouse_modes().len(),
        forall|i: int|
            0 <= i < mouse_modes().len() ==> #[trigger] mouse_modes().reverse()[i]
                == mouse_modes()[mouse_modes().len() - 1 - i],
{
    reveal_with_fuel(modes_sequence, 5);
    let m = mouse_modes();
    let r = m.reverse();
    assert(r =~= seq![m[3], m[2], m[1], m[0]]);
    assert(m.drop_last().drop_last().drop_last().drop_last() =~= Seq::empty());
    assert(r.drop_last().drop_last().drop_last().drop_last() =~= Seq::empty());
    assert(m.drop_last().drop_last().drop_last() =~= seq![m[0]]);
    assert(r.drop_last().drop_last().drop_last() =~= seq![m[3]]);
    assert(modes_sequence(m, true) =~= mode_sequence(m[0], true) + mode_sequence(m[1], true)
        + mode_sequence(m[2], true) + mode_sequence(m[3], true));
    assert(modes_sequence(r, false) =~= mode_sequence(m[3], false) + mode_sequence(m[2], false)
        + mode_sequence(m[1], false) + mode_sequence(m[0], false));
    assert(r.to_set() =~= m.to_set()) by {
        assert forall|x: Seq<char>| r.to_set().contains(x) implies m.to_set().contains(x) by {
            let i = choose|i: int| 0 <= i < r.len() && r[i] == x;
            assert(m[3 - i] == x);
        }
        assert forall|x: Seq<char>| m.to_set().contains(x) implies r.to_set().contains(x) by {
            let i = choose|i: int| 0 <= i < m.len() && m[i] == x;
            assert(r[3 - i] == x);
        }
    }
}

} // verus!
