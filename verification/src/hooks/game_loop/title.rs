//! The window title that identifies a client: `[TQ] EQ - Name (Zone)`.
use vstd::prelude::*;
use crate::text::{lit, push_str};

verus! {

/// The zone shown in the title: the long name, else the short name, else
/// nothing.
pub open spec fn title_zone(zone_long: Option<Seq<char>>, zone_short: Option<Seq<char>>) -> Seq<char> {
    match zone_long {
        Some(z) => z,
        None => match zone_short {
            Some(z) => z,
            None => Seq::empty(),
        },
    }
}

/// The title for a character in a zone, NUL-terminated for the window API;
/// `None` until a character name is known.
pub open spec fn title_spec(char_name: Option<Seq<char>>, zone_long: Option<Seq<char>>, zone_short: Option<Seq<char>>) -> Option<Seq<char>> {
    match char_name {
        Some(n) if n.len() > 0 => {
            let z = title_zone(zone_long, zone_short);
            if z.len() == 0 {
                Some("[TQ] EQ - "@ + n + seq!['\0'])
            } else {
                Some("[TQ] EQ - "@ + n + " ("@ + z + seq![')', '\0'])
            }
        },
        _ => None,
    }
}

/// Build the window title from the character name and the zone names read
/// from the game.
pub fn window_title(char_name: Option<&str>, zone_long: Option<&str>, zone_short: Option<&str>) -> (r: Option<String>)
    ensures
        (match r {
            Some(t) => Some(t@),
            None => None::<Seq<char>>,
        }) == title_spec(
            match char_name {
                Some(n) => Some(n@),
                None => None,
            },
            match zone_long {
                Some(z) => Some(z@),
                None => None,
            },
            match zone_short {
                Some(z) => Some(z@),
                None => None,
            },
        ),
{
    let name = match char_name {
        Some(n) => n,
        None => return None,
    };
    if name.unicode_len() == 0 {
        return None;
    }
    let zone: &str = match zone_long {
        Some(z) => z,
        None => match zone_short {
            Some(z) => z,
            None => "",
        },
    };
    let mut title = lit("[TQ] EQ - ");
    push_str(&mut title, name);
    proof {
        reveal_strlit("");
    }
    if zone.unicode_len() == 0 {
        crate::text::push_char(&mut title, '\0');
    } else {
        push_str(&mut title, " (");
        push_str(&mut title, zone);
        crate::text::push_char(&mut title, ')');
        crate::text::push_char(&mut title, '\0');
    }
    proof {
        reveal_strlit(" (");
        reveal_strlit("[TQ] EQ - ");
    }
    Some(title)
}

} // verus!
