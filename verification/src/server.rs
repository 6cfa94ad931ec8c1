//! The game-server status card: the description with the translated
//! message of the day, and the player-list field with its escaping and its
//! size cap.

use vstd::prelude::*;
use crate::motd::{parse_motd, spec_parse_motd};
use crate::numfmt::{spec_decimal, u32_string};
use crate::payload::{EmbedField, EmbedFieldView};
use crate::text::{join_with, spec_join};

verus! {

/// Colour of the card when the server answers.
pub const COLOUR_ONLINE: u32 = 0x1F8B4C;

/// Colour of the card when the server is offline or unreachable.
pub const COLOUR_OFFLINE: u32 = 0xE74C3C;

/// Largest player-list field value the chat surface accepts, in characters.
pub const PLAYER_LIST_CAP: usize = 1024;

pub open spec fn spec_server_title(online: bool) -> Seq<char> {
    if online {
        "Server online!"@
    } else {
        "Server offline..."@
    }
}

pub fn server_title(online: bool) -> (r: &'static str)
    ensures
        r@ == spec_server_title(online),
{
    if online {
        "Server online!"
    } else {
        "Server offline..."
    }
}

/// The text with every underscore escaped, so names render verbatim.
pub open spec fn spec_escape_underscores(s: Seq<char>) -> Seq<char>
    decreases s.len(),
{
    if s.len() == 0 {
        Seq::empty()
    } else {
        (if s[0] == '_' {
            seq!['\\', '_']
        } else {
            seq![s[0]]
        }) + spec_escape_underscores(s.drop_first())
    }
}

proof fn lemma_escape_push(s: Seq<char>, c: char)
    ensures
        spec_escape_underscores(s.push(c)) == spec_escape_underscores(s) + (if c == '_' {
            seq!['\\', '_']
        } else {
            seq![c]
        }),
    decreases s.len(),
{
    let piece: Seq<char> = if c == '_' {
        seq!['\\', '_']
    } else {
        seq![c]
    };
    if s.len() == 0 {
        assert(s.push(c) =~= seq![c]);
        assert(s.push(c).drop_first() =~= Seq::<char>::empty());
        assert(spec_escape_underscores(Seq::<char>::empty()) =~= Seq::<char>::empty());
        assert(spec_escape_underscores(s.push(c)) =~= piece);
        assert(spec_escape_underscores(s) + piece =~= piece);
    } else {
        assert(s.push(c).drop_first() =~= s.drop_first().push(c));
        lemma_escape_push(s.drop_first(), c);
        assert(s.push(c)[0] == s[0]);
        assert(spec_escape_underscores(s.push(c)) =~= spec_escape_underscores(s) + piece);
    }
}

fn escape_underscores(s: &str) -> (r: String)
    ensures
        r@ == spec_escape_underscores(s@),
{
    let n = s.unicode_len();
    let mut r = String::new();
    let mut i: usize = 0;
    proof {
        assert(s@.take(0) =~= Seq::<char>::empty());
    }
    while i < n
        invariant
            0 <= i <= n,
            n == s@.len(),
            r@ == spec_escape_underscores(s@.take(i as int)),
        decreases n - i,
    {
        let c = s.get_char(i);
        if c == '_' {
            r.append("\\_");
        } else {
            crate::text::push_char(&mut r, c);
        }
        proof {
            reveal_strlit("\\_");
            assert("\\_"@ =~= seq!['\\', '_']);
            assert(s@.take(i + 1) =~= s@.take(i as int).push(s@[i as int]));
            lemma_escape_push(s@.take(i as int), s@[i as int]);
            assert(r@ =~= spec_escape_underscores(s@.take(i + 1)));
        }
        i = i + 1;
    }
    proof {
        assert(s@.take(n as int) =~= s@);
    }
    r
}

/// Name of the player-list field: `Players: {online}/{max}`.
pub open spec fn spec_player_field_name(online: u32, max: u32) -> Seq<char> {
    "Players: "@ + spec_decimal(online as nat) + "/"@ + spec_decimal(max as nat)
}

/// Value of the player-list field: the names joined and escaped, replaced
/// by a notice when too long for the surface, or an empty placeholder when
/// the sample names nobody.
pub open spec fn spec_player_field_value(names: Option<Seq<Seq<char>>>) -> Seq<char> {
    match names {
        Some(list) => {
            let joined = spec_escape_underscores(spec_join(list, ", "@));
            if joined.len() > PLAYER_LIST_CAP {
                "Too many usernames to display!"@
            } else {
                joined
            }
        },
        None => "[]()"@,
    }
}

/// Builds the player-list field.
pub fn player_field(online: u32, max: u32, names: Option<&Vec<String>>) -> (r: EmbedField)
    ensures
        r@ == (EmbedFieldView {
            name: spec_player_field_name(online, max),
            value: spec_player_field_value(
                match names {
                    Some(list) => Some(list@.map_values(|s: String| s@)),
                    None => None,
                },
            ),
        }),
{
    let name = "Players: ".to_owned().concat(u32_string(online).as_str()).concat("/").concat(
        u32_string(max).as_str(),
    );
    proof {
        assert(name@ =~= spec_player_field_name(online, max));
    }
    let value = match names {
        Some(list) => {
            let joined = escape_underscores(join_with(list, ", ").as_str());
            if joined.as_str().unicode_len() > PLAYER_LIST_CAP {
                "Too many usernames to display!".to_owned()
            } else {
                joined
            }
        },
        None => "[]()".to_owned(),
    };
    EmbedField { name, value }
}

/// Description of the online card: the translated message of the day, when
/// there is one, above the server address.
pub open spec fn spec_online_description(
    motd_lines: Option<Seq<Seq<char>>>,
    ip: Seq<char>,
) -> Seq<char> {
    (match motd_lines {
        Some(lines) => spec_parse_motd(spec_join(lines, "\n"@)) + "\n\n"@,
        None => Seq::empty(),
    }) + "**IP:**  `"@ + ip + "`"@
}

/// Builds the description of the online card.
pub fn online_description(motd_lines: Option<&Vec<String>>, ip: &str) -> (r: String)
    ensures
        r@ == spec_online_description(
            match motd_lines {
                Some(lines) => Some(lines@.map_values(|s: String| s@)),
                None => None,
            },
            ip@,
        ),
{
    let head = match motd_lines {
        Some(lines) => parse_motd(join_with(lines, "\n").as_str()).concat("\n\n"),
        None => String::new(),
    };
    let r = head.concat("**IP:**  `").concat(ip).concat("`");
    proof {
        assert(r@ =~= spec_online_description(
            match motd_lines {
                Some(lines) => Some(lines@.map_values(|s: String| s@)),
                None => None,
            },
            ip@,
        ));
    }
    r
}

/// Description of the offline card: the server address alone.
pub open spec fn spec_offline_description(ip: Seq<char>) -> Seq<char> {
    "**IP:**  `"@ + ip + "`"@
}

pub fn offline_description(ip: &str) -> (r: String)
    ensures
        r@ == spec_offline_description(ip@),
{
    let r = "**IP:**  `".to_owned().concat(ip).concat("`");
    proof {
        assert(r@ =~= spec_offline_description(ip@));
    }
    r
}

/// Address of the thumbnail shown beside the online card.
pub open spec fn spec_favicon_url(ip: Seq<char>) -> Seq<char> {
    "https://eu.mc-api.net/v3/server/favicon/"@ + ip
}

pub fn favicon_url(ip: &str) -> (r: String)
    ensures
        r@ == spec_favicon_url(ip@),
{
    let r = "https://eu.mc-api.net/v3/server/favicon/".to_owned().concat(ip);
    proof {
        assert(r@ =~= spec_favicon_url(ip@));
    }
    r
}

} // verus!
