//! 128-bit UUIDs, and expansion of 16-/32-bit Bluetooth SIG short forms
//! through the BLE base UUID `00000000-0000-1000-8000-00805F9B34FB`.

use vstd::prelude::*;

verus! {

/// A 128-bit UUID, split as the standard field layout: `time_low`,
/// `time_mid`, `time_hi_and_version`, and the final eight bytes
/// (clock sequence and node) packed big-endian into a `u64`.
#[derive(Clone, Copy, Debug, PartialEq, Eq, Structural, Hash)]
pub struct Uuid {
    pub time_low: u32,
    pub time_mid: u16,
    pub time_hi_and_version: u16,
    pub clock_seq_and_node: u64,
}

/// `time_mid` of the BLE base UUID.
pub const BASE_UUID_MID: u16 = 0;

/// `time_hi_and_version` of the BLE base UUID.
pub const BASE_UUID_HI: u16 = 0x1000;

/// The final eight bytes of the BLE base UUID, big-endian.
pub const BASE_UUID_NODE: u64 = 0x8000_0080_5F9B_34FB;

/// The 128-bit expansion of a short UUID: the short value in `time_low`,
/// the remaining twelve bytes those of the BLE base UUID.
pub open spec fn sdp_uuid(x: u32) -> Uuid {
    Uuid {
        time_low: x,
        time_mid: BASE_UUID_MID,
        time_hi_and_version: BASE_UUID_HI,
        clock_seq_and_node: BASE_UUID_NODE,
    }
}

/// Construction of a 128-bit UUID from a 16- or 32-bit Bluetooth SIG
/// short form.
pub trait SdpShortUuid<T>: Sized {
    /// The short value, widened to 32 bits.
    spec fn short_as_u32(x: T) -> u32;

    /// Expands the short form through the BLE base UUID.
    fn from_sdp_short_uuid(uuid: T) -> (r: Uuid)
        ensures
            r == sdp_uuid(Self::short_as_u32(uuid)),
    ;
}

impl SdpShortUuid<u16> for Uuid {
    open spec fn short_as_u32(x: u16) -> u32 {
        x as u32
    }

    fn from_sdp_short_uuid(uuid: u16) -> (r: Uuid) {
        Uuid {
            time_low: uuid as u32,
            time_mid: BASE_UUID_MID,
            time_hi_and_version: BASE_UUID_HI,
            clock_seq_and_node: BASE_UUID_NODE,
        }
    }
}

impl SdpShortUuid<u32> for Uuid {
    open spec fn short_as_u32(x: u32) -> u32 {
        x
    }

    fn from_sdp_short_uuid(uuid: u32) -> (r: Uuid) {
        Uuid {
            time_low: uuid,
            time_mid: BASE_UUID_MID,
            time_hi_and_version: BASE_UUID_HI,
            clock_seq_and_node: BASE_UUID_NODE,
        }
    }
}

/// The supplied short value round-trips in the `time_low` field, and the
/// remaining twelve bytes equal the BLE base UUID.
pub proof fn lemma_sdp_uuid_round_trip(x: u32)
    ensures
        sdp_uuid(x).time_low == x,
        sdp_uuid(x).time_mid == BASE_UUID_MID,
        sdp_uuid(x).time_hi_and_version == BASE_UUID_HI,
        sdp_uuid(x).clock_seq_and_node == BASE_UUID_NODE,
{
}

/// The lowercase hexadecimal digit for a nibble.
pub open spec fn hex_digit(v: nat) -> char {
    if v == 0 {
        '0'
    } else if v == 1 {
        '1'
    } else if v == 2 {
        '2'
    } else if v == 3 {
        '3'
    } else if v == 4 {
        '4'
    } else if v == 5 {
        '5'
    } else if v == 6 {
        '6'
    } else if v == 7 {
        '7'
    } else if v == 8 {
        '8'
    } else if v == 9 {
        '9'
    } else if v == 10 {
        'a'
    } else if v == 11 {
        'b'
    } else if v == 12 {
        'c'
    } else if v == 13 {
        'd'
    } else if v == 14 {
        'e'
    } else {
        'f'
    }
}

/// The low `width` nibbles of `v` in lowercase hexadecimal, most
/// significant first, zero-padded to exactly `width` characters.
pub open spec fn hex_of(v: nat, width: nat) -> Seq<char>
    decreases width,
{
    if width == 0 {
        Seq::<char>::empty()
    } else {
        hex_of(v / 16, (width - 1) as nat).push(hex_digit(v % 16))
    }
}

pub(crate) fn hex_digit_str(d: u64) -> (r: &'static str)
    requires
        d < 16,
    ensures
        r@ =~= seq![hex_digit(d as nat)],
{
    match d {
        0 => {
            proof {
                reveal_strlit("0");
            }
            "0"
        },
        1 => {
            proof {
                reveal_strlit("1");
            }
            "1"
        },
        2 => {
            proof {
                reveal_strlit("2");
            }
            "2"
        },
        3 => {
            proof {
                reveal_strlit("3");
            }
            "3"
        },
        4 => {
            proof {
                reveal_strlit("4");
            }
            "4"
        },
        5 => {
            proof {
                reveal_strlit("5");
            }
            "5"
        },
        6 => {
            proof {
                reveal_strlit("6");
            }
            "6"
        },
        7 => {
            proof {
                reveal_strlit("7");
            }
            "7"
        },
        8 => {
            proof {
                reveal_strlit("8");
            }
            "8"
        },
        9 => {
            proof {
                reveal_strlit("9");
            }
            "9"
        },
        10 => {
            proof {
                reveal_strlit("a");
            }
            "a"
        },
        11 => {
            proof {
                reveal_strlit("b");
            }
            "b"
        },
        12 => {
            proof {
                reveal_strlit("c");
            }
            "c"
        },
        13 => {
            proof {
                reveal_strlit("d");
            }
            "d"
        },
        14 => {
            proof {
                reveal_strlit("e");
            }
            "e"
        },
        _ => {
            proof {
                reveal_strlit("f");
            }
            "f"
        },
    }
}

/// Appends the low `width` nibbles of `v` to `s` in lowercase hexadecimal,
/// most significant first.
fn push_hex(s: &mut String, v: u64, width: usize)
    ensures
        final(s)@ == old(s)@ + hex_of(v as nat, width as nat),
    decreases width,
{
    if width == 0 {
        assert(old(s)@ + hex_of(v as nat, 0) =~= old(s)@);
    } else {
        push_hex(s, v / 16, width - 1);
        s.append(hex_digit_str(v % 16));
        assert(old(s)@ + hex_of((v / 16) as nat, (width - 1) as nat) + seq![
            hex_digit((v % 16) as nat),
        ] =~= old(s)@ + hex_of(v as nat, width as nat));
    }
}

/// The lowercase hyphenated form of a UUID: five hexadecimal groups of
/// 8, 4, 4, 4 and 12 digits.
pub open spec fn uuid_str(u: Uuid) -> Seq<char> {
    hex_of(u.time_low as nat, 8) + seq!['-'] + hex_of(u.time_mid as nat, 4) + seq!['-'] + hex_of(
        u.time_hi_and_version as nat,
        4,
    ) + seq!['-'] + hex_of((u.clock_seq_and_node >> 48) as nat, 4) + seq!['-'] + hex_of(
        (u.clock_seq_and_node & 0xFFFF_FFFF_FFFF) as nat,
        12,
    )
}

impl Uuid {
    /// The lowercase hyphenated string form, as advertisements and the
    /// D-Bus `UUID` properties carry it.
    pub fn to_string(&self) -> (r: String)
        ensures
            r@ == uuid_str(*self),
    {
        proof {
            reveal_strlit("-");
        }
        let mut s = String::new();
        push_hex(&mut s, self.time_low as u64, 8);
        s.append("-");
        push_hex(&mut s, self.time_mid as u64, 4);
        s.append("-");
        push_hex(&mut s, self.time_hi_and_version as u64, 4);
        s.append("-");
        push_hex(&mut s, self.clock_seq_and_node >> 48, 4);
        s.append("-");
        push_hex(&mut s, self.clock_seq_and_node & 0xFFFF_FFFF_FFFF, 12);
        proof {
            assert(s@ =~= uuid_str(*self));
        }
        s
    }
}

} // verus!
