//! The pure mapping from access properties to BlueZ's flag-string
//! vocabulary.  Exactly the enabled flags are emitted; a secure capability
//! contributes both the `secure-` and the `encrypt-authenticated-` form.

use vstd::prelude::*;

use crate::gatt::characteristic;
use crate::gatt::descriptor;

verus! {

/// Membership in a concatenation is membership in either part.
pub proof fn lemma_contains_concat<A>(a: Seq<A>, b: Seq<A>, x: A)
    ensures
        (a + b).contains(x) <==> a.contains(x) || b.contains(x),
{
    if a.contains(x) {
        let i = choose|i: int| 0 <= i < a.len() && a[i] == x;
        assert((a + b)[i] == x);
    }
    if b.contains(x) {
        let i = choose|i: int| 0 <= i < b.len() && b[i] == x;
        assert((a + b)[a.len() + i] == x);
    }
    if (a + b).contains(x) {
        let i = choose|i: int| 0 <= i < (a + b).len() && (a + b)[i] == x;
        if i < a.len() {
            assert(a[i] == x);
        } else {
            assert(b[i - a.len()] == x);
        }
    }
}

/// Membership in a concatenation is membership in either part, for every
/// needle.
pub proof fn lemma_contains_concat_all<A>(a: Seq<A>, b: Seq<A>)
    ensures
        forall|x: A| #[trigger] (a + b).contains(x) <==> a.contains(x) || b.contains(x),
{
    assert forall|x: A| #[trigger] (a + b).contains(x) <==> a.contains(x) || b.contains(x) by {
        lemma_contains_concat(a, b, x);
    }
}

/// A one-element sequence holds exactly its element.
proof fn lemma_contains_singleton<A>(s: Seq<A>, a: A)
    requires
        s =~= seq![a],
    ensures
        forall|x: A| #[trigger] s.contains(x) <==> x == a,
{
    assert forall|x: A| #[trigger] s.contains(x) <==> x == a by {
        if x == a {
            assert(s[0] == a);
        }
        if s.contains(x) {
            let i = choose|i: int| 0 <= i < s.len() && s[i] == x;
            assert(i == 0);
        }
    }
}

/// A two-element sequence holds exactly its elements.
proof fn lemma_contains_pair<A>(s: Seq<A>, a: A, b: A)
    requires
        s =~= seq![a, b],
    ensures
        forall|x: A| #[trigger] s.contains(x) <==> (x == a || x == b),
{
    assert forall|x: A| #[trigger] s.contains(x) <==> (x == a || x == b) by {
        if x == a {
            assert(s[0] == a);
        }
        if x == b {
            assert(s[1] == b);
        }
        if s.contains(x) {
            let i = choose|i: int| 0 <= i < s.len() && s[i] == x;
            assert(i == 0 || i == 1);
        }
    }
}

/// The flags a characteristic's read capability contributes.
pub open spec fn characteristic_read_flags(read: Option<characteristic::Read>) -> Seq<Seq<char>> {
    match read {
        Option::None => Seq::<Seq<char>>::empty(),
        Option::Some(r) => match r.0 {
            characteristic::Secure::Secure(_) => seq![
                "secure-read"@,
                "encrypt-authenticated-read"@,
            ],
            characteristic::Secure::Insecure(_) => seq!["read"@],
        },
    }
}

/// The flags a characteristic's write capability contributes.
pub open spec fn characteristic_write_flags(write: Option<characteristic::Write>) -> Seq<
    Seq<char>,
> {
    match write {
        Option::None => Seq::<Seq<char>>::empty(),
        Option::Some(w) => match w {
            characteristic::Write::WithResponse(secure) => match secure {
                characteristic::Secure::Secure(_) => seq![
                    "secure-write"@,
                    "encrypt-authenticated-write"@,
                ],
                characteristic::Secure::Insecure(_) => seq!["write"@],
            },
            characteristic::Write::WithoutResponse(_) => seq!["write-without-response"@],
        },
    }
}

/// The flags a characteristic's notify capability contributes.
pub open spec fn characteristic_notify_flags(
    notify: Option<characteristic::ServerInitiated>,
) -> Seq<Seq<char>> {
    match notify {
        Option::None => Seq::<Seq<char>>::empty(),
        Option::Some(n) => match n.0 {
            characteristic::Secure::Secure(_) => seq![
                "encrypt-authenticated-notify"@,
                "secure-notify"@,
            ],
            characteristic::Secure::Insecure(_) => seq!["notify"@],
        },
    }
}

/// The flags a characteristic's indicate capability contributes.
pub open spec fn characteristic_indicate_flags(
    indicate: Option<characteristic::ServerInitiated>,
) -> Seq<Seq<char>> {
    match indicate {
        Option::None => Seq::<Seq<char>>::empty(),
        Option::Some(n) => match n.0 {
            characteristic::Secure::Secure(_) => seq![
                "encrypt-authenticated-indicate"@,
                "secure-indicate"@,
            ],
            characteristic::Secure::Insecure(_) => seq!["indicate"@],
        },
    }
}

/// The full flag list of a characteristic: read, then write, then notify,
/// then indicate contributions.
pub open spec fn characteristic_flags_spec(p: characteristic::Properties) -> Seq<Seq<char>> {
    characteristic_read_flags(p.read) + characteristic_write_flags(p.write)
        + characteristic_notify_flags(p.notify) + characteristic_indicate_flags(p.indicate)
}

/// The flags a descriptor's read capability contributes.
pub open spec fn descriptor_read_flags(read: Option<descriptor::Read>) -> Seq<Seq<char>> {
    match read {
        Option::None => Seq::<Seq<char>>::empty(),
        Option::Some(r) => match r.0 {
            descriptor::Secure::Secure(_) => seq!["secure-read"@, "encrypt-authenticated-read"@],
            descriptor::Secure::Insecure(_) => seq!["read"@],
        },
    }
}

/// The flags a descriptor's write capability contributes.
pub open spec fn descriptor_write_flags(write: Option<descriptor::Write>) -> Seq<Seq<char>> {
    match write {
        Option::None => Seq::<Seq<char>>::empty(),
        Option::Some(w) => match w.0 {
            descriptor::Secure::Secure(_) => seq!["secure-write"@, "encrypt-authenticated-write"@],
            descriptor::Secure::Insecure(_) => seq!["write"@],
        },
    }
}

/// The full flag list of a descriptor: read, then write contributions.
pub open spec fn descriptor_flags_spec(p: descriptor::Properties) -> Seq<Seq<char>> {
    descriptor_read_flags(p.read) + descriptor_write_flags(p.write)
}

/// The BlueZ flag strings of an attribute's access properties.
pub trait Flags {
    /// The exact flag list, in the order it is emitted.
    spec fn spec_flags(&self) -> Seq<Seq<char>>;

    fn flags(&self) -> (r: Vec<String>)
        ensures
            r.deep_view() == self.spec_flags(),
    ;
}

fn push_flag(v: &mut Vec<String>, flag: &'static str)
    ensures
        final(v).deep_view() =~= old(v).deep_view().push(flag@),
{
    v.push(String::from_str(flag));
}

impl Flags for characteristic::Properties {
    open spec fn spec_flags(&self) -> Seq<Seq<char>> {
        characteristic_flags_spec(*self)
    }

    fn flags(&self) -> (r: Vec<String>)
        ensures
            r.deep_view() == self.spec_flags(),
    {
        let mut flags: Vec<String> = Vec::new();
        match &self.read {
            Option::Some(read) => match read.0 {
                characteristic::Secure::Secure(_) => {
                    push_flag(&mut flags, "secure-read");
                    push_flag(&mut flags, "encrypt-authenticated-read");
                },
                characteristic::Secure::Insecure(_) => {
                    push_flag(&mut flags, "read");
                },
            },
            Option::None => {},
        }
        assert(flags.deep_view() =~= characteristic_read_flags(self.read));
        let ghost after_read = flags.deep_view();
        match &self.write {
            Option::Some(write) => match write {
                characteristic::Write::WithResponse(secure) => match secure {
                    characteristic::Secure::Secure(_) => {
                        push_flag(&mut flags, "secure-write");
                        push_flag(&mut flags, "encrypt-authenticated-write");
                    },
                    characteristic::Secure::Insecure(_) => {
                        push_flag(&mut flags, "write");
                    },
                },
                characteristic::Write::WithoutResponse(_) => {
                    push_flag(&mut flags, "write-without-response");
                },
            },
            Option::None => {},
        }
        assert(flags.deep_view() =~= after_read + characteristic_write_flags(self.write));
        let ghost after_write = flags.deep_view();
        match &self.notify {
            Option::Some(notify) => match notify.0 {
                characteristic::Secure::Secure(_) => {
                    push_flag(&mut flags, "encrypt-authenticated-notify");
                    push_flag(&mut flags, "secure-notify");
                },
                characteristic::Secure::Insecure(_) => {
                    push_flag(&mut flags, "notify");
                },
            },
            Option::None => {},
        }
        assert(flags.deep_view() =~= after_write + characteristic_notify_flags(self.notify));
        let ghost after_notify = flags.deep_view();
        match &self.indicate {
            Option::Some(indicate) => match indicate.0 {
                characteristic::Secure::Secure(_) => {
                    push_flag(&mut flags, "encrypt-authenticated-indicate");
                    push_flag(&mut flags, "secure-indicate");
                },
                characteristic::Secure::Insecure(_) => {
                    push_flag(&mut flags, "indicate");
                },
            },
            Option::None => {},
        }
        assert(flags.deep_view() =~= after_notify + characteristic_indicate_flags(self.indicate));
        proof {
            assert(flags.deep_view() =~= characteristic_flags_spec(*self));
        }
        flags
    }
}

impl Flags for descriptor::Properties {
    open spec fn spec_flags(&self) -> Seq<Seq<char>> {
        descriptor_flags_spec(*self)
    }

    fn flags(&self) -> (r: Vec<String>)
        ensures
            r.deep_view() == self.spec_flags(),
    {
        let mut flags: Vec<String> = Vec::new();
        match &self.read {
            Option::Some(read) => match read.0 {
                descriptor::Secure::Secure(_) => {
                    push_flag(&mut flags, "secure-read");
                    push_flag(&mut flags, "encrypt-authenticated-read");
                },
                descriptor::Secure::Insecure(_) => {
                    push_flag(&mut flags, "read");
                },
            },
            Option::None => {},
        }
        assert(flags.deep_view() =~= descriptor_read_flags(self.read));
        let ghost after_read = flags.deep_view();
        match &self.write {
            Option::Some(write) => match write.0 {
                descriptor::Secure::Secure(_) => {
                    push_flag(&mut flags, "secure-write");
                    push_flag(&mut flags, "encrypt-authenticated-write");
                },
                descriptor::Secure::Insecure(_) => {
                    push_flag(&mut flags, "write");
                },
            },
            Option::None => {},
        }
        assert(flags.deep_view() =~= after_read + descriptor_write_flags(self.write));
        proof {
            assert(flags.deep_view() =~= descriptor_flags_spec(*self));
        }
        flags
    }
}

/// The flag list of a characteristic holds each flag string exactly when
/// the table says so: `read` for an insecure read, `secure-read` and
/// `encrypt-authenticated-read` for a secure one, and likewise for write,
/// notify and indicate; `write-without-response` for an unacknowledged
/// write capability.
pub proof fn lemma_characteristic_flags_exact(p: characteristic::Properties)
    ensures
        characteristic_flags_spec(p).contains("read"@) <==> (p.read matches Some(r)
            && r.0 is Insecure),
        characteristic_flags_spec(p).contains("secure-read"@) <==> (p.read matches Some(r)
            && r.0 is Secure),
        characteristic_flags_spec(p).contains("encrypt-authenticated-read"@) <==> (
        p.read matches Some(r) && r.0 is Secure),
        characteristic_flags_spec(p).contains("write"@) <==> (p.write matches Some(
            characteristic::Write::WithResponse(s),
        ) && s is Insecure),
        characteristic_flags_spec(p).contains("secure-write"@) <==> (p.write matches Some(
            characteristic::Write::WithResponse(s),
        ) && s is Secure),
        characteristic_flags_spec(p).contains("encrypt-authenticated-write"@) <==> (
        p.write matches Some(characteristic::Write::WithResponse(s)) && s is Secure),
        characteristic_flags_spec(p).contains("write-without-response"@) <==> (p.write matches Some(
            w,
        ) && w is WithoutResponse),
        characteristic_flags_spec(p).contains("notify"@) <==> (p.notify matches Some(n)
            && n.0 is Insecure),
        characteristic_flags_spec(p).contains("secure-notify"@) <==> (p.notify matches Some(n)
            && n.0 is Secure),
        characteristic_flags_spec(p).contains("encrypt-authenticated-notify"@) <==> (
        p.notify matches Some(n) && n.0 is Secure),
        characteristic_flags_spec(p).contains("indicate"@) <==> (p.indicate matches Some(n)
            && n.0 is Insecure),
        characteristic_flags_spec(p).contains("secure-indicate"@) <==> (p.indicate matches Some(n)
            && n.0 is Secure),
        characteristic_flags_spec(p).contains("encrypt-authenticated-indicate"@) <==> (
        p.indicate matches Some(n) && n.0 is Secure),
{
    reveal_strlit("read");
    reveal_strlit("secure-read");
    reveal_strlit("encrypt-authenticated-read");
    reveal_strlit("write");
    reveal_strlit("secure-write");
    reveal_strlit("encrypt-authenticated-write");
    reveal_strlit("write-without-response");
    reveal_strlit("notify");
    reveal_strlit("secure-notify");
    reveal_strlit("encrypt-authenticated-notify");
    reveal_strlit("indicate");
    reveal_strlit("secure-indicate");
    reveal_strlit("encrypt-authenticated-indicate");
    // The thirteen flag strings have pairwise distinct lengths, so no two
    // are equal.
    assert("read"@.len() == 4);
    assert("secure-read"@.len() == 11);
    assert("encrypt-authenticated-read"@.len() == 26);
    assert("write"@.len() == 5);
    assert("secure-write"@.len() == 12);
    assert("encrypt-authenticated-write"@.len() == 27);
    assert("write-without-response"@.len() == 22);
    assert("notify"@.len() == 6);
    assert("secure-notify"@.len() == 13);
    assert("encrypt-authenticated-notify"@.len() == 28);
    assert("indicate"@.len() == 8);
    assert("secure-indicate"@.len() == 15);
    assert("encrypt-authenticated-indicate"@.len() == 30);
    let a = characteristic_read_flags(p.read);
    let b = characteristic_write_flags(p.write);
    let c = characteristic_notify_flags(p.notify);
    let d = characteristic_indicate_flags(p.indicate);
    lemma_contains_concat_all(a, b);
    lemma_contains_concat_all(a + b, c);
    lemma_contains_concat_all(a + b + c, d);
    assert(characteristic_flags_spec(p) == a + b + c + d);
    match p.read {
        Some(r) => match r.0 {
            characteristic::Secure::Secure(_) => lemma_contains_pair(
                a,
                "secure-read"@,
                "encrypt-authenticated-read"@,
            ),
            characteristic::Secure::Insecure(_) => lemma_contains_singleton(a, "read"@),
        },
        None => {},
    }
    match p.write {
        Some(w) => match w {
            characteristic::Write::WithResponse(s) => match s {
                characteristic::Secure::Secure(_) => lemma_contains_pair(
                    b,
                    "secure-write"@,
                    "encrypt-authenticated-write"@,
                ),
                characteristic::Secure::Insecure(_) => lemma_contains_singleton(b, "write"@),
            },
            characteristic::Write::WithoutResponse(_) => lemma_contains_singleton(
                b,
                "write-without-response"@,
            ),
        },
        None => {},
    }
    match p.notify {
        Some(n) => match n.0 {
            characteristic::Secure::Secure(_) => lemma_contains_pair(
                c,
                "encrypt-authenticated-notify"@,
                "secure-notify"@,
            ),
            characteristic::Secure::Insecure(_) => lemma_contains_singleton(c, "notify"@),
        },
        None => {},
    }
    match p.indicate {
        Some(n) => match n.0 {
            characteristic::Secure::Secure(_) => lemma_contains_pair(
                d,
                "encrypt-authenticated-indicate"@,
                "secure-indicate"@,
            ),
            characteristic::Secure::Insecure(_) => lemma_contains_singleton(d, "indicate"@),
        },
        None => {},
    }
}

/// The flag list of a descriptor holds each flag string exactly when the
/// table says so.
pub proof fn lemma_descriptor_flags_exact(p: descriptor::Properties)
    ensures
        descriptor_flags_spec(p).contains("read"@) <==> (p.read matches Some(r)
            && r.0 is Insecure),
        descriptor_flags_spec(p).contains("secure-read"@) <==> (p.read matches Some(r)
            && r.0 is Secure),
        descriptor_flags_spec(p).contains("encrypt-authenticated-read"@) <==> (p.read matches Some(
            r,
        ) && r.0 is Secure),
        descriptor_flags_spec(p).contains("write"@) <==> (p.write matches Some(w)
            && w.0 is Insecure),
        descriptor_flags_spec(p).contains("secure-write"@) <==> (p.write matches Some(w)
            && w.0 is Secure),
        descriptor_flags_spec(p).contains("encrypt-authenticated-write"@) <==> (p.write matches Some(
            w,
        ) && w.0 is Secure),
{
    reveal_strlit("read");
    reveal_strlit("secure-read");
    reveal_strlit("encrypt-authenticated-read");
    reveal_strlit("write");
    reveal_strlit("secure-write");
    reveal_strlit("encrypt-authenticated-write");
    // The six flag strings have pairwise distinct lengths, so no two are
    // equal.
    assert("read"@.len() == 4);
    assert("secure-read"@.len() == 11);
    assert("encrypt-authenticated-read"@.len() == 26);
    assert("write"@.len() == 5);
    assert("secure-write"@.len() == 12);
    assert("encrypt-authenticated-write"@.len() == 27);
    let a = descriptor_read_flags(p.read);
    let b = descriptor_write_flags(p.write);
    lemma_contains_concat_all(a, b);
    match p.read {
        Some(r) => match r.0 {
            descriptor::Secure::Secure(_) => lemma_contains_pair(
                a,
                "secure-read"@,
                "encrypt-authenticated-read"@,
            ),
            descriptor::Secure::Insecure(_) => lemma_contains_singleton(a, "read"@),
        },
        None => {},
    }
    match p.write {
        Some(w) => match w.0 {
            descriptor::Secure::Secure(_) => lemma_contains_pair(
                b,
                "secure-write"@,
                "encrypt-authenticated-write"@,
            ),
            descriptor::Secure::Insecure(_) => lemma_contains_singleton(b, "write"@),
        },
        None => {},
    }
}

} // verus!
