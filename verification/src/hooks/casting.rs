//! Spell casting control: validation of gem slots, abilities and item uses,
//! and the game call each of them comes down to.
use vstd::prelude::*;
use crate::text::{chars_of, is_control, is_control_char, lit, push_char, push_chars, push_decimal, trim, trim_chars, dec};

verus! {

/// Number of spell gems.
pub const MAX_SPELL_GEM: u8 = 13;

/// Why a casting operation was refused.
#[derive(Debug, Clone, PartialEq, Eq)]
pub enum CastError {
    NoBaseAddress,
    InvalidSlot(u8),
    AlreadyCasting,
    PlatformStub,
    InvalidItem(String),
}

impl CastError {
    /// The human-readable message of the error.
    pub fn message(&self) -> (r: String)
        ensures
            r@ == cast_error_message(*self),
    {
        match self {
            CastError::NoBaseAddress => lit("EQ base address not set -- cannot resolve pointers"),
            CastError::InvalidSlot(slot) => {
                let mut s = lit("spell gem slot ");
                push_decimal(&mut s, *slot as u64);
                let tail = lit(" is out of range (valid: 1-13)");
                let tail_chars = chars_of(tail.as_str());
                push_chars(&mut s, tail_chars.as_slice());
                s
            },
            CastError::AlreadyCasting => lit("a spell is already being cast"),
            CastError::PlatformStub => lit("casting not available on this platform"),
            CastError::InvalidItem(name) => {
                let mut s = lit("invalid item slot or name: ");
                let name_chars = chars_of(name.as_str());
                push_chars(&mut s, name_chars.as_slice());
                s
            },
        }
    }
}

/// The message of each error.
pub open spec fn cast_error_message(e: CastError) -> Seq<char> {
    match e {
        CastError::NoBaseAddress => "EQ base address not set -- cannot resolve pointers"@,
        CastError::InvalidSlot(slot) => "spell gem slot "@ + dec(slot as nat) + " is out of range (valid: 1-13)"@,
        CastError::AlreadyCasting => "a spell is already being cast"@,
        CastError::PlatformStub => "casting not available on this platform"@,
        CastError::InvalidItem(name) => "invalid item slot or name: "@ + name@,
    }
}

/// The call into the game an accepted operation makes.
#[derive(Debug, Clone, PartialEq, Eq)]
pub enum EqCall {
    /// `CastSpell` on a zero-based gem (spell id 0: whatever is memorized).
    CastSpell { gem_id: u8, spell_id: u32 },
    /// `DoCombatAbility`.
    CombatAbility { ability_id: i32, allow_while_moving: bool },
    /// A slash command for the command interpreter.
    SlashCommand(String),
}

/// A character kept in an item name: no control characters, no quotes.
pub open spec fn item_char_ok(c: char) -> bool {
    !is_control_char(c) && c != '"'
}

/// The item name with control characters and quotes removed.
pub open spec fn strip_item_chars(s: Seq<char>) -> Seq<char>
    decreases s.len(),
{
    if s.len() == 0 {
        s
    } else {
        let p = strip_item_chars(s.drop_last());
        if item_char_ok(s.last()) {
            p.push(s.last())
        } else {
            p
        }
    }
}

/// The item name as it goes into the command: stripped, then trimmed.
pub open spec fn sanitized_item_name(s: Seq<char>) -> Seq<char> {
    trim(strip_item_chars(s))
}

fn strip_item_name(name: &[char]) -> (r: Vec<char>)
    ensures
        r@ == strip_item_chars(name@),
{
    let mut out: Vec<char> = Vec::new();
    let mut i: usize = 0;
    while i < name.len()
        invariant
            0 <= i <= name@.len(),
            out@ == strip_item_chars(name@.take(i as int)),
        decreases name@.len() - i,
    {
        let c = name[i];
        proof {
            assert(name@.take(i + 1).drop_last() =~= name@.take(i as int));
        }
        if !is_control(c) && c != '"' {
            out.push(c);
        }
        i = i + 1;
    }
    proof {
        assert(name@.take(name@.len() as int) =~= name@);
    }
    out
}

/// Spell casting, abilities and item use, against the game loaded at
/// `eq_base`.
#[derive(Debug, Clone, Copy, PartialEq, Eq, Structural)]
pub struct CastingController {
    pub eq_base: u64,
}

impl CastingController {
    /// A controller for the game loaded at `eq_base`.
    pub fn new(eq_base: u64) -> (r: Self)
        ensures
            r.eq_base == eq_base,
    {
        CastingController { eq_base }
    }

    /// Point the controller at a new module base.
    pub fn set_eq_base(&mut self, eq_base: u64)
        ensures
            final(self).eq_base == eq_base,
    {
        self.eq_base = eq_base;
    }

    /// Cast from a spell gem (1 to 13): the zero-based gem is handed to
    /// `CastSpell` with spell id 0. A slot outside 1..=13 is refused first,
    /// then a missing module base.
    pub fn cast_spell(&self, spell_slot: u8, target_id: u32) -> (r: Result<EqCall, CastError>)
        ensures
            (spell_slot == 0 || spell_slot > 13) ==> r == Err::<EqCall, CastError>(CastError::InvalidSlot(spell_slot)),
            (1 <= spell_slot <= 13 && self.eq_base == 0) ==> r == Err::<EqCall, CastError>(CastError::NoBaseAddress),
            (1 <= spell_slot <= 13 && self.eq_base != 0) ==> r == Ok::<EqCall, CastError>(
                EqCall::CastSpell { gem_id: (spell_slot - 1) as u8, spell_id: 0 },
            ),
    {
        if spell_slot == 0 || spell_slot > MAX_SPELL_GEM {
            return Err(CastError::InvalidSlot(spell_slot));
        }
        if self.eq_base == 0 {
            return Err(CastError::NoBaseAddress);
        }
        let gem_id = spell_slot - 1;
        Ok(EqCall::CastSpell { gem_id, spell_id: 0 })
    }

    /// Interrupt the current cast. Without the game's player to duck, this
    /// is refused as unavailable once the module base is known.
    pub fn interrupt_cast(&self) -> (r: Result<(), CastError>)
        ensures
            self.eq_base == 0 ==> r == Err::<(), CastError>(CastError::NoBaseAddress),
            self.eq_base != 0 ==> r == Err::<(), CastError>(CastError::PlatformStub),
    {
        if self.eq_base == 0 {
            return Err(CastError::NoBaseAddress);
        }
        Err(CastError::PlatformStub)
    }

    /// Whether a cast is in progress. Without the game's memory to read, no
    /// cast is ever in progress once the module base is known.
    pub fn is_casting(&self) -> (r: Result<bool, CastError>)
        ensures
            self.eq_base == 0 ==> r == Err::<bool, CastError>(CastError::NoBaseAddress),
            self.eq_base != 0 ==> r == Ok::<bool, CastError>(false),
    {
        if self.eq_base == 0 {
            return Err(CastError::NoBaseAddress);
        }
        Ok(false)
    }

    /// Use an ability or discipline: `DoCombatAbility` with the id (as the
    /// game's signed id, wrapping) and the flag set.
    pub fn use_ability(&self, ability_id: u32) -> (r: Result<EqCall, CastError>)
        ensures
            self.eq_base == 0 ==> r == Err::<EqCall, CastError>(CastError::NoBaseAddress),
            self.eq_base != 0 ==> r == Ok::<EqCall, CastError>(
                EqCall::CombatAbility { ability_id: ability_id as i32, allow_while_moving: true },
            ),
    {
        if self.eq_base == 0 {
            return Err(CastError::NoBaseAddress);
        }
        Ok(EqCall::CombatAbility { ability_id: ability_id as i32, allow_while_moving: true })
    }

    /// Use the item in an inventory slot: `/useitem <slot>`.
    pub fn use_item(&self, slot_id: u32) -> (r: Result<EqCall, CastError>)
        ensures
            self.eq_base == 0 ==> r == Err::<EqCall, CastError>(CastError::NoBaseAddress),
            self.eq_base != 0 ==> (r matches Ok(EqCall::SlashCommand(c)) && c@ == "/useitem "@ + dec(
                slot_id as nat,
            )),
    {
        if self.eq_base == 0 {
            return Err(CastError::NoBaseAddress);
        }
        let mut command = lit("/useitem ");
        push_decimal(&mut command, slot_id as u64);
        Ok(EqCall::SlashCommand(command))
    }

    /// Use an item by name: `/useitem "<name>"` with control characters and
    /// quotes stripped and the rest trimmed; a name left empty is refused.
    pub fn use_item_by_name(&self, item_name: &str) -> (r: Result<EqCall, CastError>)
        ensures
            self.eq_base == 0 ==> r == Err::<EqCall, CastError>(CastError::NoBaseAddress),
            self.eq_base != 0 && sanitized_item_name(item_name@).len() == 0 ==> (r matches Err(
                CastError::InvalidItem(n),
            ) && n@ == item_name@),
            self.eq_base != 0 && sanitized_item_name(item_name@).len() > 0 ==> (r matches Ok(
                EqCall::SlashCommand(c),
            ) && c@ == "/useitem \""@ + sanitized_item_name(item_name@) + "\""@),
    {
        if self.eq_base == 0 {
            return Err(CastError::NoBaseAddress);
        }
        let chars = chars_of(item_name);
        let stripped = strip_item_name(chars.as_slice());
        let trimmed = trim_chars(stripped.as_slice());
        if trimmed.len() == 0 {
            return Err(CastError::InvalidItem(lit(item_name)));
        }
        let mut command = lit("/useitem \"");
        push_chars(&mut command, trimmed.as_slice());
        push_char(&mut command, '"');
        proof {
            reveal_strlit("\"");
            assert(command@ =~= "/useitem \""@ + sanitized_item_name(item_name@) + "\""@);
        }
        Ok(EqCall::SlashCommand(command))
    }
}

} // verus!
