//! Dual-role state machines and flag rewrites over [`crate::keys`].
//!
//! A consumer feeds [`KeyEvent`]s and gets back events to emit and flags to stamp.

use crate::keys::{Key, KeyEvent, ModifierFlags, PressType};
use vstd::prelude::*;

verus! {

/// Where a dual-role hold key stands.
#[derive(Debug, Default, Clone, Copy, PartialEq, Eq, Structural)]
pub enum Role {
    /// The hold key is up.
    #[default]
    Idle,
    /// Hold key is down; no other key yet. Up taps `alone`.
    Pending,
    /// Another key arrived while held; `modifier` down has been emitted.
    AsModifier,
}

impl Role {
    pub open spec fn readable(self) -> Seq<char> {
        match self {
            Role::Idle => "Idle"@,
            Role::Pending => "Pending"@,
            Role::AsModifier => "AsModifier"@,
        }
    }

    fn debug_str(self) -> (r: &'static str)
        ensures
            r@ == self.readable(),
    {
        match self {
            Role::Idle => "Idle",
            Role::Pending => "Pending",
            Role::AsModifier => "AsModifier",
        }
    }
}

/// A hold key that taps as `alone` when released with no other key, and acts as
/// `modifier`/`flag` when another key arrives while it is down. No timer.
#[derive(Clone, Copy, PartialEq, Eq, Structural, Debug)]
pub struct AloneOrModifier {
    hold: Key,
    alone: Key,
    alone_flags: ModifierFlags,
    modifier: Key,
    flag: ModifierFlags,
    role: Role,
}

/// A synthetic key event.
pub open spec fn key_event(key: Key, press: PressType, flags: ModifierFlags) -> KeyEvent {
    KeyEvent { key, press, flags }
}

impl AloneOrModifier {
    /// The physical key this dual-role owns.
    pub closed spec fn hold_key(self) -> Key {
        self.hold
    }

    /// What a lone tap of the hold key types.
    pub closed spec fn alone_key(self) -> Key {
        self.alone
    }

    /// The flags a lone tap carries.
    pub closed spec fn alone_with(self) -> ModifierFlags {
        self.alone_flags
    }

    /// The key the hold acts as once another key arrives.
    pub closed spec fn modifier_key(self) -> Key {
        self.modifier
    }

    /// The flag the hold stamps while acting as the modifier.
    pub closed spec fn modifier_flag(self) -> ModifierFlags {
        self.flag
    }

    pub closed spec fn role(self) -> Role {
        self.role
    }

    /// The same configuration in another role.
    pub closed spec fn in_role(self, role: Role) -> AloneOrModifier {
        AloneOrModifier { role, ..self }
    }

    /// A dual-role is its configuration and its role.
    pub proof fn lemma_in_role(self, role: Role)
        ensures
            self.in_role(role).role() == role,
            self.in_role(role).hold_key() == self.hold_key(),
            self.in_role(role).alone_key() == self.alone_key(),
            self.in_role(role).alone_with() == self.alone_with(),
            self.in_role(role).modifier_key() == self.modifier_key(),
            self.in_role(role).modifier_flag() == self.modifier_flag(),
            self.in_role(self.role()) == self,
            self.in_role(role).in_role(self.role()) == self,
    {
    }

    /// State and output after the hold key goes `press`. A Down only starts a hold from idle:
    /// a repeat while held keeps the role, so a hold acting as the modifier stays the modifier.
    pub open spec fn hold_step(self, press: PressType) -> (AloneOrModifier, Seq<KeyEvent>) {
        match press {
            PressType::Down => (
                if self.role() == Role::Idle {
                    self.in_role(Role::Pending)
                } else {
                    self
                },
                seq![],
            ),
            PressType::Up => (
                self.in_role(Role::Idle),
                match self.role() {
                    Role::Pending => seq![
                        key_event(self.alone_key(), PressType::Down, self.alone_with()),
                        key_event(self.alone_key(), PressType::Up, self.alone_with()),
                    ],
                    Role::AsModifier => seq![
                        key_event(self.modifier_key(), PressType::Up, ModifierFlags::spec_empty()),
                    ],
                    Role::Idle => seq![],
                },
            ),
        }
    }

    /// State and output when another key arrives.
    pub open spec fn promote_step(self) -> (AloneOrModifier, Seq<KeyEvent>) {
        if self.role() == Role::Pending {
            (
                self.in_role(Role::AsModifier),
                seq![key_event(self.modifier_key(), PressType::Down, ModifierFlags::spec_empty())],
            )
        } else {
            (self, seq![])
        }
    }

    pub fn new(
        hold: Key,
        alone: Key,
        alone_flags: ModifierFlags,
        modifier: Key,
        flag: ModifierFlags,
    ) -> (r: Self)
        ensures
            r.hold_key() == hold,
            r.alone_key() == alone,
            r.alone_with() == alone_flags,
            r.modifier_key() == modifier,
            r.modifier_flag() == flag,
            r.role() == Role::Idle,
    {
        AloneOrModifier { hold, alone, alone_flags, modifier, flag, role: Role::Idle }
    }

    /// `Escape` alone → Escape; held with other keys → Control.
    pub fn escape_control() -> (r: Self)
        ensures
            r.hold_key() == Key::Escape,
            r.alone_key() == Key::Escape,
            r.alone_with()@ == 0,
            r.modifier_key() == Key::ControlLeft,
            r.modifier_flag()@ == 1,
            r.role() == Role::Idle,
    {
        Self::new(
            Key::Escape,
            Key::Escape,
            ModifierFlags::empty(),
            Key::ControlLeft,
            ModifierFlags::control(),
        )
    }

    /// Left shift alone → `(`; held with other keys → real left shift.
    pub fn left_shift_open_paren() -> (r: Self)
        ensures
            r.hold_key() == Key::ShiftLeft,
            r.alone_key() == Key::Num9,
            r.alone_with()@ == 8,
            r.modifier_key() == Key::ShiftLeft,
            r.modifier_flag()@ == 8,
            r.role() == Role::Idle,
    {
        Self::new(
            Key::ShiftLeft,
            Key::Num9,
            ModifierFlags::shift(),
            Key::ShiftLeft,
            ModifierFlags::shift(),
        )
    }

    /// Right shift alone → `)`; held with other keys → real right shift.
    pub fn right_shift_close_paren() -> (r: Self)
        ensures
            r.hold_key() == Key::ShiftRight,
            r.alone_key() == Key::Num0,
            r.alone_with()@ == 8,
            r.modifier_key() == Key::ShiftRight,
            r.modifier_flag()@ == 8,
            r.role() == Role::Idle,
    {
        Self::new(
            Key::ShiftRight,
            Key::Num0,
            ModifierFlags::shift(),
            Key::ShiftRight,
            ModifierFlags::shift(),
        )
    }

    /// The physical key this dual-role owns.
    pub fn hold(self) -> (r: Key)
        ensures
            r == self.hold_key(),
    {
        self.hold
    }

    /// Whether the hold is acting as the modifier.
    pub fn is_modifier(self) -> (r: bool)
        ensures
            r == (self.role() == Role::AsModifier),
    {
        matches!(self.role, Role::AsModifier)
    }

    /// Whether the hold is down and no other key has promoted yet.
    pub fn is_pending(self) -> (r: bool)
        ensures
            r == (self.role() == Role::Pending),
    {
        matches!(self.role, Role::Pending)
    }

    /// Whether the hold is live (pending or acting as modifier).
    pub fn is_held(self) -> (r: bool)
        ensures
            r == (self.role() != Role::Idle),
    {
        !matches!(self.role, Role::Idle)
    }

    /// Down or up of the physical hold key. Returns synthetic events; the physical hold
    /// key is never re-emitted. A Down starts a hold only from idle; an auto-repeat while held
    /// keeps the role.
    pub fn on_hold(&mut self, press: PressType) -> (r: Vec<KeyEvent>)
        ensures
            (*final(self), r@) == old(self).hold_step(press),
    {
        match press {
            PressType::Down => {
                if self.role == Role::Idle {
                    self.role = Role::Pending;
                }
                Vec::new()
            },
            PressType::Up => {
                let was = self.role;
                self.role = Role::Idle;
                match was {
                    Role::Pending => {
                        let mut out = Vec::new();
                        out.push(KeyEvent { key: self.alone, press: PressType::Down, flags: self.alone_flags });
                        out.push(KeyEvent { key: self.alone, press: PressType::Up, flags: self.alone_flags });
                        proof {
                            assert(out@ =~= old(self).hold_step(press).1);
                        }
                        out
                    },
                    Role::AsModifier => {
                        let mut out = Vec::new();
                        out.push(KeyEvent { key: self.modifier, press: PressType::Up, flags: ModifierFlags::empty() });
                        proof {
                            assert(out@ =~= old(self).hold_step(press).1);
                        }
                        out
                    },
                    Role::Idle => Vec::new(),
                }
            },
        }
    }

    /// If pending, promote to modifier and return `modifier` down. Otherwise empty.
    pub fn promote_if_pending(&mut self) -> (r: Vec<KeyEvent>)
        ensures
            (*final(self), r@) == old(self).promote_step(),
    {
        if self.role != Role::Pending {
            return Vec::new();
        }
        self.role = Role::AsModifier;
        let mut out = Vec::new();
        out.push(KeyEvent { key: self.modifier, press: PressType::Down, flags: ModifierFlags::empty() });
        proof {
            assert(out@ =~= old(self).promote_step().1);
        }
        out
    }

    /// Or this dual-role's modifier flag onto `flags` when acting as the modifier.
    pub fn stamp(self, flags: ModifierFlags) -> (r: ModifierFlags)
        ensures
            r@ == (if self.role() == Role::AsModifier {
                flags@ | self.modifier_flag()@
            } else {
                flags@
            }),
    {
        if matches!(self.role, Role::AsModifier) {
            flags | self.flag
        } else {
            flags
        }
    }

    /// Live phase only: `AloneOrModifier { Escape: Pending }`. Idle is empty braces.
    pub open spec fn readable(self) -> Seq<char> {
        if self.role() == Role::Idle {
            "AloneOrModifier {}"@
        } else {
            "AloneOrModifier { "@ + self.hold_key().readable() + ": "@ + self.role().readable()
                + " }"@
        }
    }

    pub fn debug_string(self) -> (r: String)
        ensures
            r@ == self.readable(),
    {
        let mut out = String::from_str("AloneOrModifier {");
        match self.role {
            Role::Idle => {
                out.append("}");
            },
            role => {
                out.append(" ");
                out.append(&self.hold.debug_string());
                out.append(": ");
                out.append(role.debug_str());
                out.append(" }");
            },
        }
        proof {
            reveal_strlit("AloneOrModifier {}");
            reveal_strlit("AloneOrModifier {");
            reveal_strlit("AloneOrModifier { ");
            reveal_strlit("}");
            reveal_strlit(" ");
            assert(out@ =~= self.readable());
        }
        out
    }
}

/// Toggle the SHIFT bit on a key event; other modifiers are left alone.
pub fn invert_shift(ev: &KeyEvent) -> (r: KeyEvent)
    ensures
        r.key == ev.key,
        r.press == ev.press,
        r.flags@ == ev.flags@ ^ 8,
{
    let mut flags = ev.flags;
    let shift_on = !flags.contains(ModifierFlags::shift());
    flags.set(ModifierFlags::shift(), shift_on);
    proof {
        let x = ev.flags@;
        assert((x & 8u8) != 8u8 ==> (x | 8u8) == x ^ 8u8) by (bit_vector);
        assert((x & 8u8) == 8u8 ==> (x & !8u8) == x ^ 8u8) by (bit_vector);
    }
    KeyEvent { key: ev.key, press: ev.press, flags }
}

/// Inverting shift twice gives back the event; inverting it changes the SHIFT bit and no
/// other flag.
pub proof fn law_invert_shift(x: u8)
    ensures
        (x ^ 8) ^ 8 == x,
        (x ^ 8) & !8u8 == x & !8u8,
        ((x ^ 8) & 8 == 8) != (x & 8 == 8),
{
    assert((x ^ 8u8) ^ 8u8 == x) by (bit_vector);
    assert((x ^ 8u8) & !8u8 == x & !8u8) by (bit_vector);
    assert(((x ^ 8u8) & 8u8 == 8u8) != (x & 8u8 == 8u8)) by (bit_vector);
}

/// A press and release of the hold key with nothing between taps `alone` once, with its
/// flags, and leaves the dual-role idle, unless the hold was already acting as the modifier.
pub proof fn law_tap(m: AloneOrModifier)
    requires
        m.role() != Role::AsModifier,
    ensures
        ({
            let (down, out_down) = m.hold_step(PressType::Down);
            let (up, out_up) = down.hold_step(PressType::Up);
            &&& out_down == Seq::<KeyEvent>::empty()
            &&& out_up == seq![
                key_event(m.alone_key(), PressType::Down, m.alone_with()),
                key_event(m.alone_key(), PressType::Up, m.alone_with()),
            ]
            &&& up == m.in_role(Role::Idle)
        }),
{
    m.lemma_in_role(Role::Pending);
    m.in_role(Role::Pending).lemma_in_role(Role::Idle);
    assert(m.in_role(Role::Pending).in_role(Role::Idle) == m.in_role(Role::Idle)) by {
        m.in_role(Role::Idle).lemma_in_role(m.role());
    }
}

/// Hold, another key, release: the modifier goes down once when the other key arrives, a
/// second arrival emits nothing, and the release lifts the modifier. The lone tap never types.
pub proof fn law_hold_as_modifier(m: AloneOrModifier)
    requires
        m.role() != Role::AsModifier,
    ensures
        ({
            let (down, _) = m.hold_step(PressType::Down);
            let (promoted, out_promote) = down.promote_step();
            let (again, out_again) = promoted.promote_step();
            let (up, out_up) = again.hold_step(PressType::Up);
            &&& out_promote == seq![key_event(m.modifier_key(), PressType::Down, ModifierFlags::spec_empty())]
            &&& out_again == Seq::<KeyEvent>::empty()
            &&& out_up == seq![key_event(m.modifier_key(), PressType::Up, ModifierFlags::spec_empty())]
            &&& up == m.in_role(Role::Idle)
        }),
{
    m.lemma_in_role(Role::Pending);
    m.in_role(Role::Pending).lemma_in_role(Role::AsModifier);
    m.in_role(Role::Pending).in_role(Role::AsModifier).lemma_in_role(Role::Idle);
    m.in_role(Role::Idle).lemma_in_role(m.role());
    m.in_role(Role::Pending).in_role(Role::AsModifier).in_role(Role::Idle).lemma_in_role(m.role());
}

/// Once promoted, the hold stays the modifier until its release, however often the key
/// repeats: a repeated Down emits nothing and keeps the role, and the release lifts the modifier
/// it put down.
pub proof fn law_a_repeat_keeps_the_modifier(m: AloneOrModifier)
    requires
        m.role() == Role::AsModifier,
    ensures
        m.hold_step(PressType::Down) == (m, Seq::<KeyEvent>::empty()),
        m.hold_step(PressType::Up).1 == seq![
            key_event(m.modifier_key(), PressType::Up, ModifierFlags::spec_empty()),
        ],
        m.hold_step(PressType::Up).0 == m.in_role(Role::Idle),
{
}

/// A repeated Down of a held key changes nothing: only a Down from idle starts a hold.
pub proof fn law_a_repeated_down_is_idempotent(m: AloneOrModifier)
    ensures
        m.hold_step(PressType::Down).0.hold_step(PressType::Down) == (
            m.hold_step(PressType::Down).0,
            Seq::<KeyEvent>::empty(),
        ),
        m.role() != Role::Idle ==> m.hold_step(PressType::Down).0 == m,
{
    m.lemma_in_role(Role::Pending);
}

/// Another key arriving changes nothing unless the hold is pending.
pub proof fn law_promote_only_from_pending(m: AloneOrModifier)
    requires
        m.role() != Role::Pending,
    ensures
        m.promote_step() == (m, Seq::<KeyEvent>::empty()),
{
}

} // verus!
