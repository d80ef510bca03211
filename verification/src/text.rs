//! Verified text building: decimal rendering of slide numbers and the small
//! derived strings the system hands to its collaborators — asset file names,
//! viewer and QR-code window URLs, the published address artifact, and the
//! note returned after a deletion broadcast.

use vstd::prelude::*;

verus! {

/// The character for one decimal digit.
pub open spec fn digit_char(d: nat) -> char {
    if d == 0 {
        '0'
    } else if d == 1 {
        '1'
    } else if d == 2 {
        '2'
    } else if d == 3 {
        '3'
    } else if d == 4 {
        '4'
    } else if d == 5 {
        '5'
    } else if d == 6 {
        '6'
    } else if d == 7 {
        '7'
    } else if d == 8 {
        '8'
    } else {
        '9'
    }
}

/// The usual decimal rendering of `n`: most significant digit first, no
/// leading zeroes except for `n == 0` itself.
pub open spec fn spec_decimal(n: nat) -> Seq<char>
    decreases n,
{
    if n < 10 {
        seq![digit_char(n)]
    } else {
        spec_decimal(n / 10).push(digit_char(n % 10))
    }
}

/// Append the single digit `d` to `s`.
fn append_digit(s: &mut String, d: u64)
    requires
        d < 10,
    ensures
        final(s)@ == old(s)@ + seq![digit_char(d as nat)],
{
    if d == 0 {
        proof {
            reveal_strlit("0");
            assert(("0")@ =~= seq![digit_char(0)]);
        }
        s.append("0");
    } else if d == 1 {
        proof {
            reveal_strlit("1");
            assert(("1")@ =~= seq![digit_char(1)]);
        }
        s.append("1");
    } else if d == 2 {
        proof {
            reveal_strlit("2");
            assert(("2")@ =~= seq![digit_char(2)]);
        }
        s.append("2");
    } else if d == 3 {
        proof {
            reveal_strlit("3");
            assert(("3")@ =~= seq![digit_char(3)]);
        }
        s.append("3");
    } else if d == 4 {
        proof {
            reveal_strlit("4");
            assert(("4")@ =~= seq![digit_char(4)]);
        }
        s.append("4");
    } else if d == 5 {
        proof {
            reveal_strlit("5");
            assert(("5")@ =~= seq![digit_char(5)]);
        }
        s.append("5");
    } else if d == 6 {
        proof {
            reveal_strlit("6");
            assert(("6")@ =~= seq![digit_char(6)]);
        }
        s.append("6");
    } else if d == 7 {
        proof {
            reveal_strlit("7");
            assert(("7")@ =~= seq![digit_char(7)]);
        }
        s.append("7");
    } else if d == 8 {
        proof {
            reveal_strlit("8");
            assert(("8")@ =~= seq![digit_char(8)]);
        }
        s.append("8");
    } else {
        proof {
            reveal_strlit("9");
            assert(("9")@ =~= seq![digit_char(9)]);
        }
        s.append("9");
    }
}

/// Append the decimal rendering of `n` to `s`.
pub fn append_decimal(s: &mut String, n: u64)
    ensures
        final(s)@ == old(s)@ + spec_decimal(n as nat),
    decreases n,
{
    if n >= 10 {
        append_decimal(s, n / 10);
    }
    append_digit(s, n % 10);
    proof {
        if n >= 10 {
            assert(old(s)@ + spec_decimal((n / 10) as nat) + seq![digit_char((n % 10) as nat)]
                =~= old(s)@ + spec_decimal(n as nat));
        } else {
            assert(old(s)@ + seq![digit_char(n as nat)] =~= old(s)@ + spec_decimal(n as nat));
        }
    }
}

/// The decimal rendering of `n` as a fresh string.
pub fn decimal_string(n: u64) -> (r: String)
    ensures
        r@ == spec_decimal(n as nat),
{
    let mut s = String::new();
    append_decimal(&mut s, n);
    proof {
        assert(Seq::<char>::empty() + spec_decimal(n as nat) =~= spec_decimal(n as nat));
    }
    s
}

/// The deterministic asset name a captured slide is persisted under.
pub open spec fn spec_slide_file_name(n: nat) -> Seq<char> {
    ("slide")@ + spec_decimal(n) + (".png")@
}

/// The file name for slide `n`: `slide<n>.png`.  Distinct slide numbers give
/// distinct names, so no two captures ever target the same file.
pub fn slide_file_name(n: u16) -> (r: String)
    ensures
        r@ == spec_slide_file_name(n as nat),
{
    let mut s = String::from_str("slide");
    append_decimal(&mut s, n as u64);
    s.append(".png");
    s
}

/// The URL opened for the slide-viewer window.
pub open spec fn spec_slide_viewer_url(n: nat, server_address: Seq<char>) -> Seq<char> {
    ("slide-viewer?slideNumber=")@ + spec_decimal(n) + ("&serverAddress=")@ + server_address
}

/// Build the slide-viewer window URL for slide `n` on `server_address`.
pub fn slide_viewer_url(slide_number: u32, server_address: &str) -> (r: String)
    ensures
        r@ == spec_slide_viewer_url(slide_number as nat, server_address@),
{
    let mut s = String::from_str("slide-viewer?slideNumber=");
    append_decimal(&mut s, slide_number as u64);
    s.append("&serverAddress=");
    s.append(server_address);
    s
}

/// The URL opened for the QR-code window.
pub open spec fn spec_qr_code_url(server_address: Seq<char>) -> Seq<char> {
    ("qr-code?serverAddress=")@ + server_address
}

/// Build the QR-code window URL for `server_address`.
pub fn qr_code_url(server_address: &str) -> (r: String)
    ensures
        r@ == spec_qr_code_url(server_address@),
{
    let mut s = String::from_str("qr-code?serverAddress=");
    s.append(server_address);
    s
}

/// The generated artifact that tells the served frontend where the realtime
/// endpoint listens.
pub open spec fn spec_address_artifact(ws_address: Seq<char>) -> Seq<char> {
    ("export const webSocketAddress = \"ws://")@ + ws_address + ("\";\n")@
}

/// Build the address-publication artifact for the resolved realtime address.
pub fn address_artifact(ws_address: &str) -> (r: String)
    ensures
        r@ == spec_address_artifact(ws_address@),
{
    let mut s = String::from_str("export const webSocketAddress = \"ws://");
    s.append(ws_address);
    s.append("\";\n");
    s
}

/// The digit characters are distinct: equal characters mean equal digits.
proof fn lemma_digit_char_injective(a: nat, b: nat)
    requires
        a < 10,
        b < 10,
        digit_char(a) == digit_char(b),
    ensures
        a == b,
{
}

/// The decimal rendering never comes out empty.
proof fn lemma_decimal_nonempty(n: nat)
    ensures
        spec_decimal(n).len() >= 1,
    decreases n,
{
    if n >= 10 {
        lemma_decimal_nonempty(n / 10);
    }
}

/// Decimal rendering is injective: different numbers read differently.
proof fn lemma_decimal_injective(a: nat, b: nat)
    requires
        spec_decimal(a) == spec_decimal(b),
    ensures
        a == b,
    decreases a,
{
    lemma_decimal_nonempty(a);
    lemma_decimal_nonempty(b);
    if a < 10 && b < 10 {
        assert(spec_decimal(a)[0] == digit_char(a));
        assert(spec_decimal(b)[0] == digit_char(b));
        lemma_digit_char_injective(a, b);
    } else if a >= 10 && b >= 10 {
        lemma_decimal_nonempty(a / 10);
        lemma_decimal_nonempty(b / 10);
        assert(spec_decimal(a).last() == digit_char(a % 10));
        assert(spec_decimal(b).last() == digit_char(b % 10));
        lemma_digit_char_injective(a % 10, b % 10);
        assert(spec_decimal(a).drop_last() =~= spec_decimal(a / 10));
        assert(spec_decimal(b).drop_last() =~= spec_decimal(b / 10));
        lemma_decimal_injective(a / 10, b / 10);
        vstd::arithmetic::div_mod::lemma_fundamental_div_mod(a as int, 10);
        vstd::arithmetic::div_mod::lemma_fundamental_div_mod(b as int, 10);
    } else if a >= 10 {
        lemma_decimal_nonempty(a / 10);
        assert(spec_decimal(a).len() >= 2);
    } else {
        lemma_decimal_nonempty(b / 10);
        assert(spec_decimal(b).len() >= 2);
    }
}

/// Asset names never collide: slides with different numbers are persisted
/// under different file names, so no two captures ever target the same
/// file.
pub proof fn lemma_slide_file_names_distinct(a: nat, b: nat)
    requires
        a != b,
    ensures
        spec_slide_file_name(a) != spec_slide_file_name(b),
{
    if spec_slide_file_name(a) == spec_slide_file_name(b) {
        let prefix = ("slide")@;
        let suffix = (".png")@;
        let fa = spec_slide_file_name(a);
        let fb = spec_slide_file_name(b);
        assert(fa.len() == prefix.len() + spec_decimal(a).len() + suffix.len());
        assert(fb.len() == prefix.len() + spec_decimal(b).len() + suffix.len());
        assert(spec_decimal(a).len() == spec_decimal(b).len());
        assert(spec_decimal(a) =~= fa.subrange(
            prefix.len() as int,
            fa.len() - suffix.len(),
        ));
        assert(spec_decimal(b) =~= fb.subrange(
            prefix.len() as int,
            fb.len() - suffix.len(),
        ));
        lemma_decimal_injective(a, b);
    }
}

/// The note reported after a deletion broadcast reached `n` subscribers.
pub open spec fn spec_notified_clients_note(n: nat) -> Seq<char> {
    ("Notified ")@ + spec_decimal(n) + (" clients")@
}

/// Build the note reported after a broadcast reached `n` subscribers.
pub fn notified_clients_note(n: usize) -> (r: String)
    ensures
        r@ == spec_notified_clients_note(n as nat),
{
    let mut s = String::from_str("Notified ");
    append_decimal(&mut s, n as u64);
    s.append(" clients");
    s
}

} // verus!
