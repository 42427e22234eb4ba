//! Hardware addresses as text.

use vstd::prelude::*;
use vstd::string::StringExecFns;

verus! {

/// The upper-case hexadecimal digit of a number below 16.
pub open spec fn hex_char(n: u8) -> char {
    if n == 0 {
        '0'
    } else if n == 1 {
        '1'
    } else if n == 2 {
        '2'
    } else if n == 3 {
        '3'
    } else if n == 4 {
        '4'
    } else if n == 5 {
        '5'
    } else if n == 6 {
        '6'
    } else if n == 7 {
        '7'
    } else if n == 8 {
        '8'
    } else if n == 9 {
        '9'
    } else if n == 10 {
        'A'
    } else if n == 11 {
        'B'
    } else if n == 12 {
        'C'
    } else if n == 13 {
        'D'
    } else if n == 14 {
        'E'
    } else {
        'F'
    }
}

/// The two hexadecimal digits of a byte.
pub open spec fn hex_pair(b: u8) -> Seq<char> {
    seq![hex_char(b / 16), hex_char(b % 16)]
}

/// An address as text: each byte as two upper-case hexadecimal digits,
/// colons between the bytes.
pub open spec fn mac_text(mac: Seq<u8>) -> Seq<char>
    decreases mac.len(),
{
    if mac.len() == 0 {
        Seq::empty()
    } else if mac.len() == 1 {
        hex_pair(mac[0])
    } else {
        mac_text(mac.drop_last()) + seq![':'] + hex_pair(mac.last())
    }
}

fn hex_digit(n: u8) -> (digit: &'static str)
    requires
        n < 16,
    ensures
        digit@ == seq![hex_char(n)],
{
    proof {
        reveal_strlit("0");
        reveal_strlit("1");
        reveal_strlit("2");
        reveal_strlit("3");
        reveal_strlit("4");
        reveal_strlit("5");
        reveal_strlit("6");
        reveal_strlit("7");
        reveal_strlit("8");
        reveal_strlit("9");
        reveal_strlit("A");
        reveal_strlit("B");
        reveal_strlit("C");
        reveal_strlit("D");
        reveal_strlit("E");
        reveal_strlit("F");
    }
    let digit = match n {
        0 => "0",
        1 => "1",
        2 => "2",
        3 => "3",
        4 => "4",
        5 => "5",
        6 => "6",
        7 => "7",
        8 => "8",
        9 => "9",
        10 => "A",
        11 => "B",
        12 => "C",
        13 => "D",
        14 => "E",
        _ => "F",
    };
    assert(digit@ =~= seq![hex_char(n)]);
    digit
}

/// Writes a hardware address as text.
pub fn format_mac(mac: &[u8; 6]) -> (text: String)
    ensures
        text@ == mac_text(mac@),
{
    let mut text = String::new();
    let mut i: usize = 0;
    assert(mac@.take(0) =~= Seq::<u8>::empty());
    while i < 6
        invariant
            i <= 6,
            mac@.len() == 6,
            text@ == mac_text(mac@.take(i as int)),
        decreases 6 - i,
    {
        let ghost before = text@;
        let ghost prefix = mac@.take(i + 1);
        assert(prefix.drop_last() =~= mac@.take(i as int));
        assert(prefix.last() == mac[i as int]);
        if i > 0 {
            proof {
                reveal_strlit(":");
            }
            text.append(":");
        }
        text.append(hex_digit(mac[i] / 16));
        text.append(hex_digit(mac[i] % 16));
        assert(text@ =~= mac_text(prefix)) by {
            if i == 0 {
                assert(text@ =~= hex_pair(mac[0]));
            } else {
                assert(text@ =~= before + seq![':'] + hex_pair(mac[i as int]));
            }
        }
        i += 1;
    }
    assert(mac@.take(6) =~= mac@);
    text
}

/// The device's hardware addresses, as text.
#[derive(Debug)]
pub struct MACAddresses {
    pub mac_base: String,
    pub mac_ble: String,
    pub mac_wifi: String,
}

impl MACAddresses {
    /// The three addresses of a device, written as text.
    pub fn get(base: &[u8; 6], ble: &[u8; 6], wifi: &[u8; 6]) -> (addresses: MACAddresses)
        ensures
            addresses.mac_base@ == mac_text(base@),
            addresses.mac_ble@ == mac_text(ble@),
            addresses.mac_wifi@ == mac_text(wifi@),
    {
        MACAddresses {
            mac_base: format_mac(base),
            mac_ble: format_mac(ble),
            mac_wifi: format_mac(wifi),
        }
    }
}

} // verus!
