//! Human-readable cartridge header report, one field per line.

use vstd::prelude::*;
use super::header::{Header, unknown_label};
use crate::text::{ascii_chars, dec_chars, hex_chars, push_dec, push_hex, utf8_lossy};

verus! {

/// A byte shown as itself when it is a printable, non-space ASCII character, else as `.`.
pub open spec fn graphic_or_dot(b: u8) -> u8 {
    if 0x21 <= b <= 0x7E { b } else { 0x2E }
}

pub open spec fn spec_ascii_graphic(bytes: Seq<u8>) -> Seq<char> {
    ascii_chars(bytes.map_values(|b: u8| graphic_or_dot(b)))
}

/// Two uppercase hex digits.
pub open spec fn hex2(b: u8) -> Seq<char> {
    hex_chars(b as nat, 2)
}

/// Bytes as two-digit uppercase hex, separated by single spaces.
pub open spec fn spec_hex_bytes(bytes: Seq<u8>) -> Seq<char>
    decreases bytes.len(),
{
    if bytes.len() == 0 {
        Seq::empty()
    } else if bytes.len() == 1 {
        hex2(bytes[0])
    } else {
        spec_hex_bytes(bytes.drop_last()) + " "@ + hex2(bytes.last())
    }
}

/// Printable ASCII characters of `bytes`, other bytes shown as `.`.
pub fn ascii_graphic(bytes: &[u8]) -> (s: String)
    ensures
        s@ == spec_ascii_graphic(bytes@),
{
    let mut shown: Vec<u8> = Vec::new();
    let mut i: usize = 0;
    while i < bytes.len()
        invariant
            i <= bytes@.len(),
            shown@ == bytes@.take(i as int).map_values(|b: u8| graphic_or_dot(b)),
        decreases bytes@.len() - i,
    {
        let b: u8 = bytes[i];
        let c: u8 = if 0x21 <= b && b <= 0x7E { b } else { 0x2E };
        shown.push(c);
        i = i + 1;
        assert(shown@ =~= bytes@.take(i as int).map_values(|b: u8| graphic_or_dot(b)));
    }
    assert(bytes@.take(bytes@.len() as int) =~= bytes@);
    utf8_lossy(shown.as_slice())
}

/// Bytes as uppercase hex pairs separated by spaces.
pub fn hex_bytes(bytes: &[u8]) -> (s: String)
    ensures
        s@ == spec_hex_bytes(bytes@),
{
    let mut s: String = String::new();
    let mut i: usize = 0;
    while i < bytes.len()
        invariant
            i <= bytes@.len(),
            s@ == spec_hex_bytes(bytes@.take(i as int)),
        decreases bytes@.len() - i,
    {
        if i > 0 {
            s.append(" ");
        }
        push_hex(&mut s, bytes[i] as u64, 2);
        i = i + 1;
        let ghost t = bytes@.take(i as int);
        assert(t.drop_last() =~= bytes@.take(i - 1));
        if i == 1 {
            assert(s@ =~= spec_hex_bytes(t));
        } else {
            assert(s@ =~= spec_hex_bytes(t));
        }
    }
    assert(bytes@.take(bytes@.len() as int) =~= bytes@);
    s
}

pub open spec fn opt_name(o: Option<&str>) -> Seq<char> {
    match o {
        Some(n) => n@,
        None => unknown_label(),
    }
}

pub open spec fn ok_fail(ok: bool) -> Seq<char> {
    if ok { "ok"@ } else { "FAIL"@ }
}

pub open spec fn spec_size_line(label: Seq<char>, byte: u8, known: Option<(Seq<char>, nat, nat)>) -> Seq<char> {
    match known {
        Some((name, banks, bytes)) => label + "$"@ + hex2(byte) + " ("@ + name + " / "@ + dec_chars(banks)
            + " banks / "@ + dec_chars(bytes) + " bytes)\n"@,
        None => label + "$"@ + hex2(byte) + " ("@ + unknown_label() + ")\n"@,
    }
}

pub open spec fn spec_byte_line(label: Seq<char>, byte: u8, name: Seq<char>) -> Seq<char> {
    label + "$"@ + hex2(byte) + " ("@ + name + ")\n"@
}

/// Header banner through the manufacturer code.
pub open spec fn spec_report_head(h: Header) -> Seq<char> {
    "--- cartridge header ---\n"@
    + "entry point:      "@ + spec_hex_bytes(h.entry_point@) + "\n"@
    + "nintendo logo:    "@ + (if h.logo_ok { "ok"@ } else { "MISMATCH"@ }) + "\n"@
    + "title:            "@ + h.title@ + "\n"@
    + "manufacturer:     "@ + spec_ascii_graphic(h.manufacturer@) + " ("@ + spec_hex_bytes(h.manufacturer@) + ")\n"@
}

/// CGB flag through cartridge type.
pub open spec fn spec_report_flags(h: Header, new_pub: Option<&str>) -> Seq<char> {
    spec_byte_line("cgb flag:         "@, h.cgb_byte, h.cgb.spec_name())
    + "new licensee:     "@ + spec_ascii_graphic(h.new_licensee@) + " ("@ + opt_name(new_pub) + ")\n"@
    + spec_byte_line("sgb flag:         "@, h.sgb_byte, if h.sgb { "SGB functions supported"@ } else {
        "No SGB functions (ignored by SGB)"@ })
    + spec_byte_line("cart type:        "@, h.cart_type_byte, match h.cart_type { Some(t) => t.spec_name(),
        None => unknown_label() })
}

/// ROM size through old licensee.
pub open spec fn spec_report_sizes(h: Header, old_pub: Option<&str>) -> Seq<char> {
    spec_size_line("rom size:         "@, h.rom_size_byte, match h.rom_size {
        Some(r) => Some((r.spec_name(), r.spec_bank_count() as nat, (r.spec_bank_count() * 16384) as nat)),
        None => None,
    })
    + spec_size_line("ram size:         "@, h.ram_size_byte, match h.ram_size {
        Some(r) => Some((r.spec_name(), r.spec_bank_count() as nat, (r.spec_bank_count() * 8192) as nat)),
        None => None,
    })
    + spec_byte_line("destination:      "@, h.destination_byte, match h.destination { Some(d) => d.spec_name(),
        None => unknown_label() })
    + spec_byte_line("old licensee:     "@, h.old_licensee, opt_name(old_pub))
}

/// Publisher, mask ROM version and both checksums (no final newline).
pub open spec fn spec_report_tail(h: Header, new_pub: Option<&str>, old_pub: Option<&str>) -> Seq<char> {
    let uses_new = h.old_licensee == super::OLD_LICENSEE_USE_NEW;
    "publisher:        "@ + opt_name(if uses_new { new_pub } else { old_pub }) + " ("@ + (if uses_new {
        "new licensee"@ } else { "old licensee"@ }) + ")\n"@
    + "mask rom version: $"@ + hex2(h.mask_rom_version) + "\n"@
    + "header checksum:  $"@ + hex2(h.header_checksum) + " (computed $"@ + hex2(h.computed_header_checksum) + ") "@
        + ok_fail(h.header_checksum == h.computed_header_checksum) + "\n"@
    + "global checksum:  $"@ + hex_chars(h.global_checksum as nat, 4) + " (computed $"@ + hex_chars(
        h.computed_global_checksum as nat, 4) + ") "@ + ok_fail(h.global_checksum == h.computed_global_checksum)
}

/// The report for `h`, given the publisher names that the new and old
/// licensee codes stand for (`None` when a code is not known).
pub open spec fn spec_describe(h: Header, new_pub: Option<&str>, old_pub: Option<&str>) -> Seq<char> {
    spec_report_head(h) + spec_report_flags(h, new_pub) + spec_report_sizes(h, old_pub)
        + spec_report_tail(h, new_pub, old_pub)
}

fn opt_or_unknown<'a>(o: Option<&'a str>) -> (r: &'a str)
    ensures
        r@ == opt_name(o),
{
    match o {
        Some(n) => n,
        None => "unknown (see Pan Docs)",
    }
}

fn push_size_line(s: &mut String, label: &str, byte: u8, name: &str, banks: u64, bytes: u64, known: bool)
    requires
        !known ==> name@ == unknown_label(),
    ensures
        final(s)@ == old(s)@ + spec_size_line(label@, byte, if known { Some((name@, banks as nat, bytes as nat)) } else {
            None }),
{
    let ghost s0 = s@;
    s.append(label);
    s.append("$");
    push_hex(s, byte as u64, 2);
    s.append(" (");
    s.append(name);
    if known {
        s.append(" / ");
        push_dec(s, banks);
        s.append(" banks / ");
        push_dec(s, bytes);
        s.append(" bytes)\n");
        assert(s@ =~= s0 + spec_size_line(label@, byte, Some((name@, banks as nat, bytes as nat))));
    } else {
        s.append(")\n");
        assert(s@ =~= s0 + spec_size_line(label@, byte, None));
    }
}

/// Append `label$XX (name)\n`.
fn push_byte_line(s: &mut String, label: &str, byte: u8, name: &str)
    ensures
        final(s)@ == old(s)@ + spec_byte_line(label@, byte, name@),
{
    let ghost s0 = s@;
    s.append(label);
    s.append("$");
    push_hex(s, byte as u64, 2);
    s.append(" (");
    s.append(name);
    s.append(")\n");
    assert(s@ =~= s0 + spec_byte_line(label@, byte, name@));
}

impl Header {
    fn push_report_head(&self, s: &mut String)
        ensures
            final(s)@ == old(s)@ + spec_report_head(*self),
    {
        let ghost s0 = s@;
        s.append("--- cartridge header ---\n");
        s.append("entry point:      ");
        let eb: String = hex_bytes(&self.entry_point);
        s.append(eb.as_str());
        s.append("\n");
        s.append("nintendo logo:    ");
        s.append(if self.logo_ok { "ok" } else { "MISMATCH" });
        s.append("\n");
        s.append("title:            ");
        s.append(self.title.as_str());
        s.append("\n");
        s.append("manufacturer:     ");
        let mg: String = ascii_graphic(&self.manufacturer);
        s.append(mg.as_str());
        s.append(" (");
        let mh: String = hex_bytes(&self.manufacturer);
        s.append(mh.as_str());
        s.append(")\n");
        assert(s@ =~= s0 + spec_report_head(*self));
    }

    fn push_report_flags(&self, s: &mut String, new_pub: Option<&str>)
        ensures
            final(s)@ == old(s)@ + spec_report_flags(*self, new_pub),
    {
        let ghost s0 = s@;
        push_byte_line(s, "cgb flag:         ", self.cgb_byte, self.cgb.name());
        s.append("new licensee:     ");
        let ng: String = ascii_graphic(&self.new_licensee);
        s.append(ng.as_str());
        s.append(" (");
        s.append(opt_or_unknown(new_pub));
        s.append(")\n");
        push_byte_line(
            s,
            "sgb flag:         ",
            self.sgb_byte,
            if self.sgb { "SGB functions supported" } else { "No SGB functions (ignored by SGB)" },
        );
        push_byte_line(s, "cart type:        ", self.cart_type_byte, self.cart_type_name());
        assert(s@ =~= s0 + spec_report_flags(*self, new_pub));
    }

    fn push_report_sizes(&self, s: &mut String, old_pub: Option<&str>)
        ensures
            final(s)@ == old(s)@ + spec_report_sizes(*self, old_pub),
    {
        let ghost s0 = s@;
        match self.rom_size {
            Some(r) => push_size_line(s, "rom size:         ", self.rom_size_byte, r.name(),
                r.bank_count() as u64, r.size_bytes() as u64, true),
            None => push_size_line(s, "rom size:         ", self.rom_size_byte, self.rom_size_name(), 0, 0, false),
        }
        let ghost s1 = s@;
        match self.ram_size {
            Some(r) => push_size_line(s, "ram size:         ", self.ram_size_byte, r.name(),
                r.bank_count() as u64, r.size_bytes() as u64, true),
            None => push_size_line(s, "ram size:         ", self.ram_size_byte, self.ram_size_name(), 0, 0, false),
        }
        push_byte_line(s, "destination:      ", self.destination_byte, self.destination_name());
        push_byte_line(s, "old licensee:     ", self.old_licensee, opt_or_unknown(old_pub));
        assert(s@ =~= s0 + spec_report_sizes(*self, old_pub));
    }

    fn push_report_tail(&self, s: &mut String, new_pub: Option<&str>, old_pub: Option<&str>)
        ensures
            final(s)@ == old(s)@ + spec_report_tail(*self, new_pub, old_pub),
    {
        let ghost s0 = s@;
        let uses_new: bool = self.uses_new_licensee();
        s.append("publisher:        ");
        s.append(opt_or_unknown(if uses_new { new_pub } else { old_pub }));
        s.append(" (");
        s.append(if uses_new { "new licensee" } else { "old licensee" });
        s.append(")\n");
        s.append("mask rom version: $");
        push_hex(s, self.mask_rom_version as u64, 2);
        s.append("\n");
        s.append("header checksum:  $");
        push_hex(s, self.header_checksum as u64, 2);
        s.append(" (computed $");
        push_hex(s, self.computed_header_checksum as u64, 2);
        s.append(") ");
        s.append(if self.header_checksum_ok() { "ok" } else { "FAIL" });
        s.append("\n");
        s.append("global checksum:  $");
        push_hex(s, self.global_checksum as u64, 4);
        s.append(" (computed $");
        push_hex(s, self.computed_global_checksum as u64, 4);
        s.append(") ");
        s.append(if self.global_checksum_ok() { "ok" } else { "FAIL" });
        assert(s@ =~= s0 + spec_report_tail(*self, new_pub, old_pub));
    }

    /// Multi-line report of every header field, given the publisher names
    /// that the new and old licensee codes stand for.
    pub fn describe(&self, new_pub: Option<&str>, old_pub: Option<&str>) -> (s: String)
        ensures
            s@ == spec_describe(*self, new_pub, old_pub),
    {
        let mut s: String = String::new();
        self.push_report_head(&mut s);
        self.push_report_flags(&mut s, new_pub);
        self.push_report_sizes(&mut s, old_pub);
        self.push_report_tail(&mut s, new_pub, old_pub);
        assert(s@ =~= spec_describe(*self, new_pub, old_pub));
        s
    }
}

} // verus!
