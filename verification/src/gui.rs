//! The overlay's state and the decisions it takes on each frame: whether
//! its window is open, whether the hook was removed, and the weapon name
//! written into the replacement messages.
use vstd::prelude::*;

use crate::messages::MessageReplacement;
use crate::text::{encode_utf16, utf16_of};

verus! {

/// The number of UTF-16 code units of a weapon name written into a message.
pub const WEAPON_NAME_UNITS: usize = 16;

/// The first `WEAPON_NAME_UNITS` code units of a name's UTF-16 encoding,
/// padded with zeros to that length.
pub open spec fn weapon_name_units_spec(name: Seq<char>) -> Seq<u16> {
    let units = utf16_of(name);
    Seq::new(
        WEAPON_NAME_UNITS as nat,
        |i: int|
            if i < units.len() {
                units[i]
            } else {
                0u16
            },
    )
}

/// The weapon name as it is written into a message: its first sixteen
/// UTF-16 code units, padded with zeros to sixteen.
pub fn weapon_name_units(name: &str) -> (r: Vec<u16>)
    ensures
        r@ == weapon_name_units_spec(name@),
{
    let units = encode_utf16(name);
    let mut out: Vec<u16> = Vec::new();
    let mut i: usize = 0;
    while i < WEAPON_NAME_UNITS
        invariant
            i <= WEAPON_NAME_UNITS,
            units@ == utf16_of(name@),
            out@ =~= weapon_name_units_spec(name@).take(i as int),
        decreases WEAPON_NAME_UNITS - i,
    {
        if i < units.len() {
            out.push(units[i]);
        } else {
            out.push(0u16);
        }
        i += 1;
    }
    out
}

/// The overlay: its window, the hook's removal, the replacement messages
/// and the address at which the hook leaves the last weapon's data.
pub struct HookGui {
    pub unhook_triggered: bool,
    pub window_open: bool,
    pub message_replacements: Vec<MessageReplacement>,
    pub last_weapon_data_ptr: usize,
}

impl HookGui {
    /// An overlay with its window closed and the hook in place.
    pub fn new(message_replacements: Vec<MessageReplacement>, last_weapon_data_ptr: usize) -> (r:
        Self)
        ensures
            !r.window_open,
            !r.unhook_triggered,
            r.message_replacements@ == message_replacements@,
            r.last_weapon_data_ptr == last_weapon_data_ptr,
    {
        HookGui { unhook_triggered: false, window_open: false, message_replacements, last_weapon_data_ptr }
    }

    /// The "Toggle Overlay" menu item: opens a closed window, closes an open one.
    pub fn toggle_overlay(&mut self)
        ensures
            toggle_step(*old(self), *final(self)),
    {
        self.window_open = !self.window_open;
    }

    /// The "Unhook + Exit" button: whether the hook is to be removed now,
    /// which is so only the first time.
    pub fn request_unhook(&mut self) -> (r: bool)
        ensures
            unhook_step(*old(self), *final(self), r),
    {
        let first = !self.unhook_triggered;
        self.unhook_triggered = true;
        first
    }

    /// Writes the last weapon's name into every replacement message: each
    /// message is extended by the name's sixteen code units.
    pub fn append_weapon_name(&mut self, weapon_name: &str)
        ensures
            final(self).message_replacements.len() == old(self).message_replacements.len(),
            forall|i: int|
                0 <= i < final(self).message_replacements.len() ==> {
                    &&& (#[trigger] final(self).message_replacements@[i]).category == old(
                        self,
                    ).message_replacements@[i].category
                    &&& final(self).message_replacements@[i].id == old(
                        self,
                    ).message_replacements@[i].id
                    &&& final(self).message_replacements@[i].message@ == old(
                        self,
                    ).message_replacements@[i].message@ + weapon_name_units_spec(weapon_name@)
                },
            final(self).window_open == old(self).window_open,
            final(self).unhook_triggered == old(self).unhook_triggered,
            final(self).last_weapon_data_ptr == old(self).last_weapon_data_ptr,
    {
        let ghost before = self.message_replacements@;
        let mut replacements = Vec::new();
        std::mem::swap(&mut replacements, &mut self.message_replacements);
        let mut done: Vec<MessageReplacement> = Vec::new();
        for r in it: replacements
            invariant
                it.seq() == before,
                done.len() == it.index(),
                forall|i: int|
                    0 <= i < done.len() ==> {
                        &&& (#[trigger] done@[i]).category == before[i].category
                        &&& done@[i].id == before[i].id
                        &&& done@[i].message@ == before[i].message@ + weapon_name_units_spec(
                            weapon_name@,
                        )
                    },
        {
            let ghost i = it.index();
            assert(r == before[i as int]);
            let mut r = r;
            r.message.extend(weapon_name_units(weapon_name));
            done.push(r);
        }
        self.message_replacements = done;
    }
}

/// `after` is `before` with its window toggled.
pub open spec fn toggle_step(before: HookGui, after: HookGui) -> bool {
    &&& after.window_open == !before.window_open
    &&& after.unhook_triggered == before.unhook_triggered
    &&& after.message_replacements == before.message_replacements
    &&& after.last_weapon_data_ptr == before.last_weapon_data_ptr
}

/// `after` is `before` once the unhook button was pressed, and `fired` says
/// whether the hook is to be removed by that press.
pub open spec fn unhook_step(before: HookGui, after: HookGui, fired: bool) -> bool {
    &&& fired == !before.unhook_triggered
    &&& after.unhook_triggered
    &&& after.window_open == before.window_open
    &&& after.message_replacements == before.message_replacements
    &&& after.last_weapon_data_ptr == before.last_weapon_data_ptr
}

/// Toggling the overlay twice leaves it as it was.
pub proof fn law_toggle_twice(a: HookGui, b: HookGui, c: HookGui)
    requires
        toggle_step(a, b),
        toggle_step(b, c),
    ensures
        c.window_open == a.window_open,
        c.unhook_triggered == a.unhook_triggered,
        c.message_replacements == a.message_replacements,
        c.last_weapon_data_ptr == a.last_weapon_data_ptr,
{
}

/// The hook is removed at most once: after one press of the unhook button,
/// no later press removes it again, whatever the window did in between.
pub proof fn law_unhook_fires_once(
    a: HookGui,
    b: HookGui,
    c: HookGui,
    first: bool,
    second: bool,
)
    requires
        unhook_step(a, b, first),
        unhook_step(b, c, second),
    ensures
        !second,
        first == !a.unhook_triggered,
{
}

/// Toggling the window does not re-arm the unhook button.
pub proof fn law_toggle_keeps_unhook(a: HookGui, b: HookGui)
    requires
        toggle_step(a, b),
    ensures
        b.unhook_triggered == a.unhook_triggered,
{
}

} // verus!
