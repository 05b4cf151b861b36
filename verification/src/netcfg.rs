//! Network-facing configuration decisions: choosing the probe target,
//! reading the bridge network out of a route listing, and framing outbound
//! notifications.

use vstd::prelude::*;

use crate::bytes::{
    bytes_eq, contains_byte, contains_byte_spec, fields_of, find_line_end, lemma_line_end,
    line_end, split_fields, starts_with, starts_with_spec,
};

verus! {

/// The bytes of the fallback probe target, `127.0.0.1:80`.
pub open spec fn default_target() -> Seq<u8> {
    seq![49u8, 50u8, 55u8, 46u8, 48u8, 46u8, 48u8, 46u8, 49u8, 58u8, 56u8, 48u8]
}

/// Builds the fallback probe target bytes.
pub fn default_target_bytes() -> (v: Vec<u8>)
    ensures
        v@ == default_target(),
{
    let mut v: Vec<u8> = Vec::new();
    v.push(49);
    v.push(50);
    v.push(55);
    v.push(46);
    v.push(48);
    v.push(46);
    v.push(48);
    v.push(46);
    v.push(49);
    v.push(58);
    v.push(56);
    v.push(48);
    proof {
        assert(v@ =~= default_target());
    }
    v
}

/// The dash that opens a command-line flag.
pub open spec fn flag_prefix() -> Seq<u8> {
    seq![45u8]
}

/// The views of a list of byte vectors.
pub open spec fn views_of(vs: Seq<Vec<u8>>) -> Seq<Seq<u8>> {
    vs.map_values(|v: Vec<u8>| v@)
}

/// The first argument that is not a flag: the first element that does not
/// begin with a dash. Both long flags and the short background flag open
/// with one, so neither can be mistaken for the probe target.
pub open spec fn first_non_flag(args: Seq<Seq<u8>>) -> Option<Seq<u8>>
    decreases args.len(),
{
    if args.len() == 0 {
        None
    } else if !starts_with_spec(args[0], flag_prefix()) {
        Some(args[0])
    } else {
        first_non_flag(args.skip(1))
    }
}

/// The probe target the startup configuration selects: the first non-flag
/// command-line argument; failing that, a non-empty environment value;
/// failing that, the fixed default.
pub open spec fn select_target_spec(args: Seq<Seq<u8>>, env: Option<Seq<u8>>) -> Seq<u8> {
    match first_non_flag(args) {
        Some(a) => a,
        None => match env {
            Some(e) => if e.len() > 0 {
                e
            } else {
                default_target()
            },
            None => default_target(),
        },
    }
}

/// Selects the probe target from the command-line arguments after the
/// program name and the optional environment value; see
/// [`select_target_spec`].
pub fn select_target(args: &Vec<Vec<u8>>, env: &Option<Vec<u8>>) -> (r: Vec<u8>)
    ensures
        r@ == select_target_spec(
            views_of(args@),
            match env {
                Some(e) => Some(e@),
                None => None,
            },
        ),
{
    let ghost vs: Seq<Seq<u8>> = views_of(args@);
    let mut i: usize = 0;
    let mut dashes: Vec<u8> = Vec::new();
    dashes.push(45);
    proof {
        assert(dashes@ =~= flag_prefix());
        assert(vs.skip(0) =~= vs);
    }
    while i < args.len()
        invariant
            i <= args.len(),
            vs == views_of(args@),
            vs.len() == args@.len(),
            forall|k: int| 0 <= k < vs.len() ==> vs[k] == args@[k]@,
            dashes@ == flag_prefix(),
            first_non_flag(vs) == first_non_flag(vs.skip(i as int)),
        decreases args.len() - i,
    {
        proof {
            assert(vs.skip(i as int)[0] == vs[i as int]);
        }
        if !starts_with(args[i].as_slice(), dashes.as_slice()) {
            let found = args[i].clone();
            proof {
                assert(first_non_flag(vs.skip(i as int)) == Some(vs[i as int]));
            }
            return found;
        }
        proof {
            assert(vs.skip(i as int).skip(1) =~= vs.skip(i as int + 1));
        }
        i = i + 1;
    }
    proof {
        assert(vs.skip(i as int) =~= Seq::<Seq<u8>>::empty());
        assert(first_non_flag(vs) is None);
    }
    match env {
        Some(e) => {
            if e.len() > 0 {
                e.clone()
            } else {
                default_target_bytes()
            }
        },
        None => default_target_bytes(),
    }
}

/// The bytes of the fallback bridge network, `192.168.0.0/24`.
pub open spec fn default_network() -> Seq<u8> {
    seq![49u8, 57u8, 50u8, 46u8, 49u8, 54u8, 56u8, 46u8, 48u8, 46u8, 48u8, 47u8, 50u8, 52u8]
}

/// Builds the fallback bridge network bytes.
pub fn default_network_bytes() -> (v: Vec<u8>)
    ensures
        v@ == default_network(),
{
    let mut v: Vec<u8> = Vec::new();
    v.push(49);
    v.push(57);
    v.push(50);
    v.push(46);
    v.push(49);
    v.push(54);
    v.push(56);
    v.push(46);
    v.push(48);
    v.push(46);
    v.push(48);
    v.push(47);
    v.push(50);
    v.push(52);
    proof {
        assert(v@ =~= default_network());
    }
    v
}

/// The bytes of the word `default`, as a route listing writes the default
/// route.
pub open spec fn default_route_word() -> Seq<u8> {
    seq![100u8, 101u8, 102u8, 97u8, 117u8, 108u8, 116u8]
}

/// Builds the bytes of the word `default`.
pub fn default_route_word_bytes() -> (v: Vec<u8>)
    ensures
        v@ == default_route_word(),
{
    let mut v: Vec<u8> = Vec::new();
    v.push(100);
    v.push(101);
    v.push(102);
    v.push(97);
    v.push(117);
    v.push(108);
    v.push(116);
    proof {
        assert(v@ =~= default_route_word());
    }
    v
}

/// The bytes of the link-local prefix `169.254`.
pub open spec fn link_local_prefix() -> Seq<u8> {
    seq![49u8, 54u8, 57u8, 46u8, 50u8, 53u8, 52u8]
}

/// Builds the bytes of the link-local prefix `169.254`.
pub fn link_local_prefix_bytes() -> (v: Vec<u8>)
    ensures
        v@ == link_local_prefix(),
{
    let mut v: Vec<u8> = Vec::new();
    v.push(49);
    v.push(54);
    v.push(57);
    v.push(46);
    v.push(50);
    v.push(53);
    v.push(52);
    proof {
        assert(v@ =~= link_local_prefix());
    }
    v
}

/// Whether a route token names a usable network: it carries a slash-mask,
/// is not the word `default`, and is not link-local.
pub open spec fn usable_network_token(t: Seq<u8>) -> bool {
    contains_byte_spec(t, 47) && t != default_route_word() && !starts_with_spec(
        t,
        link_local_prefix(),
    )
}

/// The network a single route line offers: its first field, when that
/// field is a usable network token.
pub open spec fn route_line_network(line: Seq<u8>) -> Option<Seq<u8>> {
    let fs = fields_of(line);
    if fs.len() >= 1 && usable_network_token(fs[0]) {
        Some(fs[0])
    } else {
        None
    }
}

/// The network a route listing offers, scanned line by line from position
/// `i`: the first line with a usable first field decides.
pub open spec fn pick_network_from(s: Seq<u8>, i: int) -> Option<Seq<u8>>
    decreases s.len() - i,
    via pick_network_from_decreases
{
    if i < 0 || i >= s.len() {
        None
    } else {
        let j = line_end(s, i);
        match route_line_network(s.subrange(i, j)) {
            Some(t) => Some(t),
            None => if j >= s.len() {
                None
            } else {
                pick_network_from(s, j + 1)
            },
        }
    }
}

#[via_fn]
proof fn pick_network_from_decreases(s: Seq<u8>, i: int) {
    if 0 <= i < s.len() {
        lemma_line_end(s, i);
    }
}

/// The bridge network a route listing yields: the first usable network
/// token, or the fixed fallback when the listing offers none.
pub open spec fn pick_bridge_network_spec(s: Seq<u8>) -> Seq<u8> {
    match pick_network_from(s, 0) {
        Some(t) => t,
        None => default_network(),
    }
}

/// Reads the bridge network out of a route listing; see
/// [`pick_bridge_network_spec`].
pub fn pick_bridge_network(listing: &[u8]) -> (r: Vec<u8>)
    ensures
        r@ == pick_bridge_network_spec(listing@),
{
    let ghost s: Seq<u8> = listing@;
    let default_word = default_route_word_bytes();
    let link_local = link_local_prefix_bytes();
    let mut i: usize = 0;
    while i < listing.len()
        invariant
            i <= listing.len(),
            s == listing@,
            default_word@ == default_route_word(),
            link_local@ == link_local_prefix(),
            pick_network_from(s, 0) == pick_network_from(s, i as int),
        decreases listing.len() - i,
    {
        let j = find_line_end(listing, i);
        let line = vstd::slice::slice_subrange(listing, i, j);
        let fields = split_fields(line);
        if fields.len() >= 1 {
            let token = fields[0].as_slice();
            if contains_byte(token, 47) && !bytes_eq(token, default_word.as_slice())
                && !starts_with(token, link_local.as_slice()) {
                assert(route_line_network(s.subrange(i as int, j as int)) == Some(token@));
                return fields[0].clone();
            }
        }
        proof {
            lemma_line_end(s, i as int);
            assert(route_line_network(s.subrange(i as int, j as int)) is None);
        }
        if j >= listing.len() {
            return default_network_bytes();
        }
        i = j + 1;
    }
    default_network_bytes()
}

/// The fixed device tag prefixed to every outbound notification:
/// `[zxic] `.
pub open spec fn notification_prefix() -> Seq<u8> {
    seq![91u8, 122u8, 120u8, 105u8, 99u8, 93u8, 32u8]
}

/// Frames an outbound notification: the fixed device tag followed by the
/// message text.
pub fn format_notification(msg: &[u8]) -> (v: Vec<u8>)
    ensures
        v@ == notification_prefix() + msg@,
{
    let mut v: Vec<u8> = Vec::new();
    v.push(91);
    v.push(122);
    v.push(120);
    v.push(105);
    v.push(99);
    v.push(93);
    v.push(32);
    proof {
        assert(v@ =~= notification_prefix());
        assert(v@ =~= notification_prefix() + msg@.take(0));
    }
    let mut k: usize = 0;
    while k < msg.len()
        invariant
            k <= msg.len(),
            v@ == notification_prefix() + msg@.take(k as int),
        decreases msg.len() - k,
    {
        v.push(msg[k]);
        proof {
            assert(v@ =~= notification_prefix() + msg@.take(k as int + 1));
        }
        k = k + 1;
    }
    proof {
        assert(msg@.take(msg@.len() as int) =~= msg@);
    }
    v
}

} // verus!
