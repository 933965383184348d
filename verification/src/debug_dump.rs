//! What the debug dump prints of a frame's buttons.

use vstd::prelude::*;

use crate::dsu::DSUFrame;

verus! {

/// `name` when `on`, nothing otherwise.
pub open spec fn name_if(on: bool, name: Seq<char>) -> Seq<Seq<char>> {
    if on {
        seq![name]
    } else {
        Seq::empty()
    }
}

/// The names of a list of strings.
pub open spec fn names_of(v: Seq<&'static str>) -> Seq<Seq<char>> {
    v.map_values(|s: &'static str| s@)
}

/// Append `name` when `on`.
fn push_if(v: &mut Vec<&'static str>, on: bool, name: &'static str)
    ensures
        names_of(final(v)@) == names_of(old(v)@) + name_if(on, name@),
{
    if on {
        v.push(name);
    }
    assert(names_of(final(v)@) =~= names_of(old(v)@) + name_if(on, name@));
}

/// The pressed face, shoulder, stick, menu and QAM buttons, in dump order.
pub open spec fn pressed_button_names_spec(f: DSUFrame) -> Seq<Seq<char>> {
    name_if(f.a, "A"@) + name_if(f.b, "B"@) + name_if(f.x, "X"@) + name_if(f.y, "Y"@) + name_if(f.l1, "L1"@) + name_if(f.r1, "R1"@) + name_if(f.l2, "L2"@) + name_if(f.r2, "R2"@) + name_if(f.l3, "L3"@) + name_if(f.r3, "R3"@) + name_if(f.options, "Options"@) + name_if(f.share, "Share"@) + name_if(f.home, "Home"@) + name_if(f.touch, "QAM"@)
}

/// The pressed face, shoulder, stick, menu and QAM buttons, in dump order.
pub fn pressed_button_names(frame: &DSUFrame) -> (r: Vec<&'static str>)
    ensures
        names_of(r@) == pressed_button_names_spec(*frame),
{
    let mut v: Vec<&'static str> = Vec::new();
    assert(names_of(v@) =~= Seq::<Seq<char>>::empty());
    push_if(&mut v, frame.a, "A");
    push_if(&mut v, frame.b, "B");
    push_if(&mut v, frame.x, "X");
    push_if(&mut v, frame.y, "Y");
    push_if(&mut v, frame.l1, "L1");
    push_if(&mut v, frame.r1, "R1");
    push_if(&mut v, frame.l2, "L2");
    push_if(&mut v, frame.r2, "R2");
    push_if(&mut v, frame.l3, "L3");
    push_if(&mut v, frame.r3, "R3");
    push_if(&mut v, frame.options, "Options");
    push_if(&mut v, frame.share, "Share");
    push_if(&mut v, frame.home, "Home");
    push_if(&mut v, frame.touch, "QAM");
    assert(names_of(v@) =~= pressed_button_names_spec(*frame));
    v
}

/// The pressed D-pad directions, in dump order.
pub open spec fn pressed_dpad_names_spec(f: DSUFrame) -> Seq<Seq<char>> {
    name_if(f.dpad_up, "Up"@) + name_if(f.dpad_down, "Down"@) + name_if(f.dpad_left, "Left"@) + name_if(f.dpad_right, "Right"@)
}

/// The pressed D-pad directions, in dump order.
pub fn pressed_dpad_names(frame: &DSUFrame) -> (r: Vec<&'static str>)
    ensures
        names_of(r@) == pressed_dpad_names_spec(*frame),
{
    let mut v: Vec<&'static str> = Vec::new();
    assert(names_of(v@) =~= Seq::<Seq<char>>::empty());
    push_if(&mut v, frame.dpad_up, "Up");
    push_if(&mut v, frame.dpad_down, "Down");
    push_if(&mut v, frame.dpad_left, "Left");
    push_if(&mut v, frame.dpad_right, "Right");
    assert(names_of(v@) =~= pressed_dpad_names_spec(*frame));
    v
}

/// The names separated by single spaces.
pub open spec fn joined(names: Seq<Seq<char>>) -> Seq<char>
    decreases names.len(),
{
    if names.len() == 0 {
        Seq::empty()
    } else if names.len() == 1 {
        names[0]
    } else {
        joined(names.drop_last()) + " "@ + names.last()
    }
}

/// The line the dump prints for a list of names: `none` for no names, otherwise the names
/// separated by single spaces.
pub open spec fn summary_spec(names: Seq<Seq<char>>) -> Seq<char> {
    if names.len() == 0 {
        "none"@
    } else {
        joined(names)
    }
}

/// Join pressed-button names for the dump, `none` when nothing is pressed.
pub fn summary(names: &Vec<&'static str>) -> (r: String)
    ensures
        r@ == summary_spec(names_of(names@)),
{
    if names.len() == 0 {
        return "none".to_owned();
    }
    let mut out = names[0].to_owned();
    let mut i: usize = 1;
    while i < names.len()
        invariant
            1 <= i <= names@.len(),
            out@ == joined(names_of(names@.take(i as int))),
        decreases names@.len() - i,
    {
        assert(names_of(names@.take(i + 1)).drop_last() =~= names_of(names@.take(i as int)));
        out.append(" ");
        out.append(names[i]);
        i = i + 1;
    }
    assert(names@.take(names@.len() as int) =~= names@);
    out
}

} // verus!
