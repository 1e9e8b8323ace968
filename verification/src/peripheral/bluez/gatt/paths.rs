//! Object-path numbering of the D-Bus tree.
//!
//! The application root lives at `/org/bluez/example`; services hang off it
//! as `/service{NNNN}`, characteristics and descriptors below them, and the
//! advertisement at `/advertisement0000`.  The four-digit counters are
//! monotonically increasing within the peripheral, which makes every path
//! unique; the lemmas at the bottom prove it.

use vstd::prelude::*;

use crate::uuid::{hex_digit, hex_digit_str};

verus! {

/// The low `width` decimal digits of `v`, most significant first,
/// zero-padded to exactly `width` characters.
pub open spec fn dec_of(v: nat, width: nat) -> Seq<char>
    decreases width,
{
    if width == 0 {
        Seq::<char>::empty()
    } else {
        dec_of(v / 10, (width - 1) as nat).push(hex_digit(v % 10))
    }
}

/// Appends the low `width` decimal digits of `v` to `s`, most significant
/// first.
fn push_dec(s: &mut String, v: u64, width: usize)
    ensures
        final(s)@ == old(s)@ + dec_of(v as nat, width as nat),
    decreases width,
{
    if width == 0 {
        assert(old(s)@ + dec_of(v as nat, 0) =~= old(s)@);
    } else {
        push_dec(s, v / 10, width - 1);
        s.append(hex_digit_str(v % 10));
        assert(old(s)@ + dec_of((v / 10) as nat, (width - 1) as nat) + seq![
            hex_digit((v % 10) as nat),
        ] =~= old(s)@ + dec_of(v as nat, width as nat));
    }
}

/// `dec_of` emits exactly `width` characters.
pub proof fn lemma_dec_of_len(v: nat, width: nat)
    ensures
        dec_of(v, width).len() == width,
    decreases width,
{
    if width > 0 {
        lemma_dec_of_len(v / 10, (width - 1) as nat);
    }
}

/// Ten to the `width`.
pub open spec fn pow10(width: nat) -> nat
    decreases width,
{
    if width == 0 {
        1
    } else {
        10 * pow10((width - 1) as nat)
    }
}

/// Two numbers below `pow10(width)` with the same `width`-digit rendering
/// are equal.
pub proof fn lemma_dec_of_injective(a: nat, b: nat, width: nat)
    requires
        a < pow10(width),
        b < pow10(width),
        dec_of(a, width) == dec_of(b, width),
    ensures
        a == b,
    decreases width,
{
    if width == 0 {
        assert(a == 0 && b == 0);
    } else {
        lemma_dec_of_len(a / 10, (width - 1) as nat);
        lemma_dec_of_len(b / 10, (width - 1) as nat);
        let da = dec_of(a / 10, (width - 1) as nat);
        let db = dec_of(b / 10, (width - 1) as nat);
        assert(da.push(hex_digit(a % 10))[width - 1] == hex_digit(a % 10));
        assert(db.push(hex_digit(b % 10))[width - 1] == hex_digit(b % 10));
        assert(hex_digit(a % 10) == hex_digit(b % 10));
        assert(a % 10 == b % 10);
        assert(da =~= db) by {
            assert forall|i: int| 0 <= i < width - 1 implies da[i] == db[i] by {
                assert(da.push(hex_digit(a % 10))[i] == da[i]);
                assert(db.push(hex_digit(b % 10))[i] == db[i]);
            }
        }
        assert(a / 10 < pow10((width - 1) as nat)) by {
            vstd::arithmetic::div_mod::lemma_fundamental_div_mod(a as int, 10);
        }
        assert(b / 10 < pow10((width - 1) as nat)) by {
            vstd::arithmetic::div_mod::lemma_fundamental_div_mod(b as int, 10);
        }
        lemma_dec_of_injective(a / 10, b / 10, (width - 1) as nat);
        assert(a == b) by {
            vstd::arithmetic::div_mod::lemma_fundamental_div_mod(a as int, 10);
            vstd::arithmetic::div_mod::lemma_fundamental_div_mod(b as int, 10);
        }
    }
}

/// The object path of the root application object.
pub open spec fn application_path_spec() -> Seq<char> {
    "/org/bluez/example"@
}

/// The object path of the advertisement numbered `ai`.
pub open spec fn advertisement_path_spec(ai: nat) -> Seq<char> {
    application_path_spec() + "/advertisement"@ + dec_of(ai, 4)
}

/// The object path of the service numbered `si`.
pub open spec fn service_path_spec(si: nat) -> Seq<char> {
    application_path_spec() + "/service"@ + dec_of(si, 4)
}

/// The object path of the characteristic numbered `ci` under the service
/// numbered `si`.
pub open spec fn characteristic_path_spec(si: nat, ci: nat) -> Seq<char> {
    service_path_spec(si) + "/characteristic"@ + dec_of(ci, 4)
}

/// The object path of the descriptor numbered `di` under characteristic
/// `ci` of service `si`.
pub open spec fn descriptor_path_spec(si: nat, ci: nat, di: nat) -> Seq<char> {
    characteristic_path_spec(si, ci) + "/descriptor"@ + dec_of(di, 4)
}

/// The object path of the root application object.
pub fn application_path() -> (r: String)
    ensures
        r@ == application_path_spec(),
{
    String::from_str("/org/bluez/example")
}

/// The object path of the advertisement numbered `index`.
pub fn advertisement_path(index: u64) -> (r: String)
    requires
        index < 10000,
    ensures
        r@ == advertisement_path_spec(index as nat),
{
    let mut s = application_path();
    s.append("/advertisement");
    push_dec(&mut s, index, 4);
    s
}

/// The object path of the service numbered `index`.
pub fn service_path(index: u64) -> (r: String)
    requires
        index < 10000,
    ensures
        r@ == service_path_spec(index as nat),
{
    let mut s = application_path();
    s.append("/service");
    push_dec(&mut s, index, 4);
    s
}

/// The object path of the characteristic numbered `index` under the service
/// at `service`.
pub fn characteristic_path(service: &str, index: u64) -> (r: String)
    requires
        index < 10000,
    ensures
        r@ == service@ + "/characteristic"@ + dec_of(index as nat, 4),
{
    let mut s = String::from_str(service);
    s.append("/characteristic");
    push_dec(&mut s, index, 4);
    s
}

/// The object path of the descriptor numbered `index` under the
/// characteristic at `characteristic`.
pub fn descriptor_path(characteristic: &str, index: u64) -> (r: String)
    requires
        index < 10000,
    ensures
        r@ == characteristic@ + "/descriptor"@ + dec_of(index as nat, 4),
{
    let mut s = String::from_str(characteristic);
    s.append("/descriptor");
    push_dec(&mut s, index, 4);
    s
}

/// A coordinate in the peripheral's object-path namespace: which object a
/// path belongs to, by the counters the registrar assigned.
pub enum PathCoord {
    Application,
    Advertisement { ai: u64 },
    Service { si: u64 },
    Characteristic { si: u64, ci: u64 },
    Descriptor { si: u64, ci: u64, di: u64 },
}

/// Every counter of the coordinate fits the four-digit scheme.
pub open spec fn coord_wf(c: PathCoord) -> bool {
    match c {
        PathCoord::Application => true,
        PathCoord::Advertisement { ai } => ai < 10000,
        PathCoord::Service { si } => si < 10000,
        PathCoord::Characteristic { si, ci } => si < 10000 && ci < 10000,
        PathCoord::Descriptor { si, ci, di } => si < 10000 && ci < 10000 && di < 10000,
    }
}

/// The object path the numbering scheme gives a coordinate.
pub open spec fn coord_path(c: PathCoord) -> Seq<char> {
    match c {
        PathCoord::Application => application_path_spec(),
        PathCoord::Advertisement { ai } => advertisement_path_spec(ai as nat),
        PathCoord::Service { si } => service_path_spec(si as nat),
        PathCoord::Characteristic { si, ci } => characteristic_path_spec(si as nat, ci as nat),
        PathCoord::Descriptor { si, ci, di } => descriptor_path_spec(
            si as nat,
            ci as nat,
            di as nat,
        ),
    }
}

/// The path lengths of the five object kinds, all distinct.
pub proof fn lemma_coord_path_len(c: PathCoord)
    ensures
        coord_path(c).len() == match c {
            PathCoord::Application => 18int,
            PathCoord::Advertisement { .. } => 36int,
            PathCoord::Service { .. } => 30int,
            PathCoord::Characteristic { .. } => 49int,
            PathCoord::Descriptor { .. } => 64int,
        },
{
    reveal_strlit("/org/bluez/example");
    reveal_strlit("/advertisement");
    reveal_strlit("/service");
    reveal_strlit("/characteristic");
    reveal_strlit("/descriptor");
    assert("/org/bluez/example"@.len() == 18);
    assert("/advertisement"@.len() == 14);
    assert("/service"@.len() == 8);
    assert("/characteristic"@.len() == 15);
    assert("/descriptor"@.len() == 11);
    match c {
        PathCoord::Application => {},
        PathCoord::Advertisement { ai } => {
            lemma_dec_of_len(ai as nat, 4);
        },
        PathCoord::Service { si } => {
            lemma_dec_of_len(si as nat, 4);
        },
        PathCoord::Characteristic { si, ci } => {
            lemma_dec_of_len(si as nat, 4);
            lemma_dec_of_len(ci as nat, 4);
        },
        PathCoord::Descriptor { si, ci, di } => {
            lemma_dec_of_len(si as nat, 4);
            lemma_dec_of_len(ci as nat, 4);
            lemma_dec_of_len(di as nat, 4);
        },
    }
}

/// Concatenations of equal total shape cancel: equal results with
/// equal-length left parts have equal parts.
proof fn lemma_concat_cancel(a: Seq<char>, x: Seq<char>, b: Seq<char>, y: Seq<char>)
    requires
        a.len() == b.len(),
        a + x == b + y,
    ensures
        a == b,
        x == y,
{
    assert((a + x).len() == (b + y).len());
    assert((a + x).len() == a.len() + x.len());
    assert((b + y).len() == b.len() + y.len());
    assert(x.len() == y.len());
    assert(a =~= b) by {
        assert forall|i: int| 0 <= i < a.len() implies a[i] == b[i] by {
            assert((a + x)[i] == a[i]);
            assert((b + y)[i] == b[i]);
        }
    }
    assert(x =~= y) by {
        assert forall|i: int| 0 <= i < x.len() implies x[i] == y[i] by {
            assert((a + x)[a.len() + i] == x[i]);
            assert((b + y)[b.len() + i] == y[i]);
        }
    }
}

/// Ten thousand is ten to the fourth.
proof fn lemma_pow10_4()
    ensures
        pow10(4) == 10000,
{
    assert(pow10(0) == 1);
    assert(pow10(1) == 10);
    assert(pow10(2) == 100);
    assert(pow10(3) == 1000);
    assert(pow10(4) == 10000);
}

/// A four-digit suffix pins its counter: equal paths built from
/// equal-length prefixes and four-digit blocks have equal prefixes and
/// equal counters.
proof fn lemma_block_cancel(a: Seq<char>, v1: u64, b: Seq<char>, v2: u64)
    requires
        a.len() == b.len(),
        v1 < 10000,
        v2 < 10000,
        a + dec_of(v1 as nat, 4) == b + dec_of(v2 as nat, 4),
    ensures
        a == b,
        v1 == v2,
{
    lemma_concat_cancel(a, dec_of(v1 as nat, 4), b, dec_of(v2 as nat, 4));
    lemma_pow10_4();
    lemma_dec_of_injective(v1 as nat, v2 as nat, 4);
}

/// The numbering scheme is injective: distinct well-formed coordinates get
/// distinct object paths.  Together with the registrar's strictly
/// increasing counters, every service, characteristic and descriptor gets
/// a unique path.
pub proof fn lemma_coord_path_injective(c1: PathCoord, c2: PathCoord)
    requires
        coord_wf(c1),
        coord_wf(c2),
        coord_path(c1) == coord_path(c2),
    ensures
        c1 == c2,
{
    lemma_coord_path_len(c1);
    lemma_coord_path_len(c2);
    match (c1, c2) {
        (PathCoord::Application, PathCoord::Application) => {},
        (PathCoord::Advertisement { ai: a1 }, PathCoord::Advertisement { ai: a2 }) => {
            lemma_block_cancel(
                application_path_spec() + "/advertisement"@,
                a1,
                application_path_spec() + "/advertisement"@,
                a2,
            );
        },
        (PathCoord::Service { si: s1 }, PathCoord::Service { si: s2 }) => {
            lemma_block_cancel(
                application_path_spec() + "/service"@,
                s1,
                application_path_spec() + "/service"@,
                s2,
            );
        },
        (
            PathCoord::Characteristic { si: s1, ci: c_1 },
            PathCoord::Characteristic { si: s2, ci: c_2 },
        ) => {
            lemma_coord_path_len(PathCoord::Service { si: s1 });
            lemma_coord_path_len(PathCoord::Service { si: s2 });
            lemma_block_cancel(
                service_path_spec(s1 as nat) + "/characteristic"@,
                c_1,
                service_path_spec(s2 as nat) + "/characteristic"@,
                c_2,
            );
            lemma_concat_cancel(
                service_path_spec(s1 as nat),
                "/characteristic"@,
                service_path_spec(s2 as nat),
                "/characteristic"@,
            );
            lemma_block_cancel(
                application_path_spec() + "/service"@,
                s1,
                application_path_spec() + "/service"@,
                s2,
            );
        },
        (
            PathCoord::Descriptor { si: s1, ci: c_1, di: d1 },
            PathCoord::Descriptor { si: s2, ci: c_2, di: d2 },
        ) => {
            lemma_coord_path_len(PathCoord::Characteristic { si: s1, ci: c_1 });
            lemma_coord_path_len(PathCoord::Characteristic { si: s2, ci: c_2 });
            lemma_block_cancel(
                characteristic_path_spec(s1 as nat, c_1 as nat) + "/descriptor"@,
                d1,
                characteristic_path_spec(s2 as nat, c_2 as nat) + "/descriptor"@,
                d2,
            );
            lemma_concat_cancel(
                characteristic_path_spec(s1 as nat, c_1 as nat),
                "/descriptor"@,
                characteristic_path_spec(s2 as nat, c_2 as nat),
                "/descriptor"@,
            );
            lemma_coord_path_len(PathCoord::Service { si: s1 });
            lemma_coord_path_len(PathCoord::Service { si: s2 });
            lemma_block_cancel(
                service_path_spec(s1 as nat) + "/characteristic"@,
                c_1,
                service_path_spec(s2 as nat) + "/characteristic"@,
                c_2,
            );
            lemma_concat_cancel(
                service_path_spec(s1 as nat),
                "/characteristic"@,
                service_path_spec(s2 as nat),
                "/characteristic"@,
            );
            lemma_block_cancel(
                application_path_spec() + "/service"@,
                s1,
                application_path_spec() + "/service"@,
                s2,
            );
        },
        _ => {
            // Different kinds have different path lengths.
        },
    }
}

} // verus!
