//! Line structure of the cartridge header report: seventeen lines joined
//! by line breaks, with no break after the last.

use vstd::prelude::*;
use super::cart_type::{CartType, ends_with};
use super::destination::Destination;
use super::header::{CartridgeCgbSupport, Header, unknown_label};
use super::ram_size::RamSize;
use super::report::{
    graphic_or_dot, hex2, ok_fail, opt_name, spec_ascii_graphic, spec_byte_line, spec_describe,
    spec_hex_bytes, spec_report_flags, spec_report_head, spec_report_sizes, spec_report_tail, spec_size_line,
};
use super::rom_size::RomSize;
use crate::text::{
    dec_chars, hex_chars, lemma_dec_chars_no_newline, lemma_hex_chars_no_newline,
    lemma_no_newline_add, lemma_no_newline_concat, no_newline,
};

verus! {

/// A byte line without its line break.
pub open spec fn byte_line_body(label: Seq<char>, byte: u8, name: Seq<char>) -> Seq<char> {
    label + "$"@ + hex2(byte) + " ("@ + name + ")"@
}

/// A size line without its line break.
pub open spec fn size_line_body(label: Seq<char>, byte: u8, known: Option<(Seq<char>, nat, nat)>) -> Seq<char> {
    match known {
        Some((name, banks, bytes)) => label + "$"@ + hex2(byte) + " ("@ + name + " / "@ + dec_chars(banks)
            + " banks / "@ + dec_chars(bytes) + " bytes)"@,
        None => label + "$"@ + hex2(byte) + " ("@ + unknown_label() + ")"@,
    }
}

pub open spec fn rom_size_known(h: Header) -> Option<(Seq<char>, nat, nat)> {
    match h.rom_size {
        Some(r) => Some((r.spec_name(), r.spec_bank_count() as nat, (r.spec_bank_count() * 16384) as nat)),
        None => None,
    }
}

pub open spec fn ram_size_known(h: Header) -> Option<(Seq<char>, nat, nat)> {
    match h.ram_size {
        Some(r) => Some((r.spec_name(), r.spec_bank_count() as nat, (r.spec_bank_count() * 8192) as nat)),
        None => None,
    }
}

pub open spec fn cart_type_name(h: Header) -> Seq<char> {
    match h.cart_type {
        Some(t) => t.spec_name(),
        None => unknown_label(),
    }
}

pub open spec fn destination_name(h: Header) -> Seq<char> {
    match h.destination {
        Some(d) => d.spec_name(),
        None => unknown_label(),
    }
}

pub open spec fn sgb_text(h: Header) -> Seq<char> {
    if h.sgb { "SGB functions supported"@ } else { "No SGB functions (ignored by SGB)"@ }
}

/// The seventeen lines of the report, without line breaks.
pub open spec fn report_lines(h: Header, new_pub: Option<&str>, old_pub: Option<&str>) -> Seq<Seq<char>> {
    let uses_new = h.old_licensee == super::OLD_LICENSEE_USE_NEW;
    seq![
        "--- cartridge header ---"@,
        "entry point:      "@ + spec_hex_bytes(h.entry_point@),
        "nintendo logo:    "@ + (if h.logo_ok { "ok"@ } else { "MISMATCH"@ }),
        "title:            "@ + h.title@,
        "manufacturer:     "@ + spec_ascii_graphic(h.manufacturer@) + " ("@ + spec_hex_bytes(h.manufacturer@) + ")"@,
        byte_line_body("cgb flag:         "@, h.cgb_byte, h.cgb.spec_name()),
        "new licensee:     "@ + spec_ascii_graphic(h.new_licensee@) + " ("@ + opt_name(new_pub) + ")"@,
        byte_line_body("sgb flag:         "@, h.sgb_byte, sgb_text(h)),
        byte_line_body("cart type:        "@, h.cart_type_byte, cart_type_name(h)),
        size_line_body("rom size:         "@, h.rom_size_byte, rom_size_known(h)),
        size_line_body("ram size:         "@, h.ram_size_byte, ram_size_known(h)),
        byte_line_body("destination:      "@, h.destination_byte, destination_name(h)),
        byte_line_body("old licensee:     "@, h.old_licensee, opt_name(old_pub)),
        "publisher:        "@ + opt_name(if uses_new { new_pub } else { old_pub }) + " ("@ + (if uses_new {
            "new licensee"@ } else { "old licensee"@ }) + ")"@,
        "mask rom version: $"@ + hex2(h.mask_rom_version),
        "header checksum:  $"@ + hex2(h.header_checksum) + " (computed $"@ + hex2(h.computed_header_checksum)
            + ") "@ + ok_fail(h.header_checksum == h.computed_header_checksum),
        "global checksum:  $"@ + hex_chars(h.global_checksum as nat, 4) + " (computed $"@ + hex_chars(
            h.computed_global_checksum as nat, 4) + ") "@ + ok_fail(h.global_checksum == h.computed_global_checksum),
    ]
}

/// Lines joined by line breaks, none after the last.
pub open spec fn join_lines(ls: Seq<Seq<char>>) -> Seq<char>
    decreases ls.len(),
{
    if ls.len() == 0 {
        Seq::empty()
    } else if ls.len() == 1 {
        ls[0]
    } else {
        join_lines(ls.drop_last()) + "\n"@ + ls.last()
    }
}

proof fn lemma_report_literals()
    ensures
        no_newline(" ("@),
        no_newline(" (computed $"@),
        no_newline(" / "@),
        no_newline(" banks / "@),
        no_newline(" bytes)"@),
        no_newline("$"@),
        no_newline(") "@),
        no_newline(")"@),
        no_newline("--- cartridge header ---"@),
        no_newline("FAIL"@),
        no_newline("MISMATCH"@),
        no_newline("No SGB functions (ignored by SGB)"@),
        no_newline("SGB functions supported"@),
        no_newline("cart type:        "@),
        no_newline("cgb flag:         "@),
        no_newline("destination:      "@),
        no_newline("entry point:      "@),
        no_newline("global checksum:  $"@),
        no_newline("header checksum:  $"@),
        no_newline("manufacturer:     "@),
        no_newline("mask rom version: $"@),
        no_newline("new licensee"@),
        no_newline("new licensee:     "@),
        no_newline("nintendo logo:    "@),
        no_newline("ok"@),
        no_newline("old licensee"@),
        no_newline("old licensee:     "@),
        no_newline("publisher:        "@),
        no_newline("ram size:         "@),
        no_newline("rom size:         "@),
        no_newline("sgb flag:         "@),
        no_newline("title:            "@),
        no_newline("unknown (see Pan Docs)"@),
{
    reveal_strlit(" (");
    assert forall|i: int| 0 <= i < " ("@.len() implies #[trigger] " ("@[i] != '\n' by {
        if i == 0 {} else if i == 1 {}
    }
    reveal_strlit(" (computed $");
    assert forall|i: int| 0 <= i < " (computed $"@.len() implies #[trigger] " (computed $"@[i] != '\n' by {
        if i == 0 {} else if i == 1 {} else if i == 2 {} else if i == 3 {} else if i == 4 {} else if i == 5 {} else if i == 6 {} else if i == 7 {} else if i == 8 {} else if i == 9 {} else if i == 10 {} else if i == 11 {}
    }
    reveal_strlit(" / ");
    assert forall|i: int| 0 <= i < " / "@.len() implies #[trigger] " / "@[i] != '\n' by {
        if i == 0 {} else if i == 1 {} else if i == 2 {}
    }
    reveal_strlit(" banks / ");
    assert forall|i: int| 0 <= i < " banks / "@.len() implies #[trigger] " banks / "@[i] != '\n' by {
        if i == 0 {} else if i == 1 {} else if i == 2 {} else if i == 3 {} else if i == 4 {} else if i == 5 {} else if i == 6 {} else if i == 7 {} else if i == 8 {}
    }
    reveal_strlit(" bytes)");
    assert forall|i: int| 0 <= i < " bytes)"@.len() implies #[trigger] " bytes)"@[i] != '\n' by {
        if i == 0 {} else if i == 1 {} else if i == 2 {} else if i == 3 {} else if i == 4 {} else if i == 5 {} else if i == 6 {}
    }
    reveal_strlit("$");
    assert(no_newline("$"@));
    reveal_strlit(") ");
    assert forall|i: int| 0 <= i < ") "@.len() implies #[trigger] ") "@[i] != '\n' by {
        if i == 0 {} else if i == 1 {}
    }
    reveal_strlit(")");
    assert(no_newline(")"@));
    reveal_strlit("--- cartridge header ---");
    assert forall|i: int| 0 <= i < "--- cartridge header ---"@.len() implies #[trigger] "--- cartridge header ---"@[i] != '\n' by {
        if i == 0 {} else if i == 1 {} else if i == 2 {} else if i == 3 {} else if i == 4 {} else if i == 5 {} else if i == 6 {} else if i == 7 {} else if i == 8 {} else if i == 9 {} else if i == 10 {} else if i == 11 {} else if i == 12 {} else if i == 13 {} else if i == 14 {} else if i == 15 {} else if i == 16 {} else if i == 17 {} else if i == 18 {} else if i == 19 {} else if i == 20 {} else if i == 21 {} else if i == 22 {} else if i == 23 {}
    }
    reveal_strlit("FAIL");
    assert forall|i: int| 0 <= i < "FAIL"@.len() implies #[trigger] "FAIL"@[i] != '\n' by {
        if i == 0 {} else if i == 1 {} else if i == 2 {} else if i == 3 {}
    }
    reveal_strlit("MISMATCH");
    assert forall|i: int| 0 <= i < "MISMATCH"@.len() implies #[trigger] "MISMATCH"@[i] != '\n' by {
        if i == 0 {} else if i == 1 {} else if i == 2 {} else if i == 3 {} else if i == 4 {} else if i == 5 {} else if i == 6 {} else if i == 7 {}
    }
    reveal_strlit("No SGB functions (ignored by SGB)");
    assert forall|i: int| 0 <= i < "No SGB functions (ignored by SGB)"@.len() implies #[trigger] "No SGB functions (ignored by SGB)"@[i] != '\n' by {
        if i == 0 {} else if i == 1 {} else if i == 2 {} else if i == 3 {} else if i == 4 {} else if i == 5 {} else if i == 6 {} else if i == 7 {} else if i == 8 {} else if i == 9 {} else if i == 10 {} else if i == 11 {} else if i == 12 {} else if i == 13 {} else if i == 14 {} else if i == 15 {} else if i == 16 {} else if i == 17 {} else if i == 18 {} else if i == 19 {} else if i == 20 {} else if i == 21 {} else if i == 22 {} else if i == 23 {} else if i == 24 {} else if i == 25 {} else if i == 26 {} else if i == 27 {} else if i == 28 {} else if i == 29 {} else if i == 30 {} else if i == 31 {} else if i == 32 {}
    }
    reveal_strlit("SGB functions supported");
    assert forall|i: int| 0 <= i < "SGB functions supported"@.len() implies #[trigger] "SGB functions supported"@[i] != '\n' by {
        if i == 0 {} else if i == 1 {} else if i == 2 {} else if i == 3 {} else if i == 4 {} else if i == 5 {} else if i == 6 {} else if i == 7 {} else if i == 8 {} else if i == 9 {} else if i == 10 {} else if i == 11 {} else if i == 12 {} else if i == 13 {} else if i == 14 {} else if i == 15 {} else if i == 16 {} else if i == 17 {} else if i == 18 {} else if i == 19 {} else if i == 20 {} else if i == 21 {} else if i == 22 {}
    }
    reveal_strlit("cart type:        ");
    assert forall|i: int| 0 <= i < "cart type:        "@.len() implies #[trigger] "cart type:        "@[i] != '\n' by {
        if i == 0 {} else if i == 1 {} else if i == 2 {} else if i == 3 {} else if i == 4 {} else if i == 5 {} else if i == 6 {} else if i == 7 {} else if i == 8 {} else if i == 9 {} else if i == 10 {} else if i == 11 {} else if i == 12 {} else if i == 13 {} else if i == 14 {} else if i == 15 {} else if i == 16 {} else if i == 17 {}
    }
    reveal_strlit("cgb flag:         ");
    assert forall|i: int| 0 <= i < "cgb flag:         "@.len() implies #[trigger] "cgb flag:         "@[i] != '\n' by {
        if i == 0 {} else if i == 1 {} else if i == 2 {} else if i == 3 {} else if i == 4 {} else if i == 5 {} else if i == 6 {} else if i == 7 {} else if i == 8 {} else if i == 9 {} else if i == 10 {} else if i == 11 {} else if i == 12 {} else if i == 13 {} else if i == 14 {} else if i == 15 {} else if i == 16 {} else if i == 17 {}
    }
    reveal_strlit("destination:      ");
    assert forall|i: int| 0 <= i < "destination:      "@.len() implies #[trigger] "destination:      "@[i] != '\n' by {
        if i == 0 {} else if i == 1 {} else if i == 2 {} else if i == 3 {} else if i == 4 {} else if i == 5 {} else if i == 6 {} else if i == 7 {} else if i == 8 {} else if i == 9 {} else if i == 10 {} else if i == 11 {} else if i == 12 {} else if i == 13 {} else if i == 14 {} else if i == 15 {} else if i == 16 {} else if i == 17 {}
    }
    reveal_strlit("entry point:      ");
    assert forall|i: int| 0 <= i < "entry point:      "@.len() implies #[trigger] "entry point:      "@[i] != '\n' by {
        if i == 0 {} else if i == 1 {} else if i == 2 {} else if i == 3 {} else if i == 4 {} else if i == 5 {} else if i == 6 {} else if i == 7 {} else if i == 8 {} else if i == 9 {} else if i == 10 {} else if i == 11 {} else if i == 12 {} else if i == 13 {} else if i == 14 {} else if i == 15 {} else if i == 16 {} else if i == 17 {}
    }
    reveal_strlit("global checksum:  $");
    assert forall|i: int| 0 <= i < "global checksum:  $"@.len() implies #[trigger] "global checksum:  $"@[i] != '\n' by {
        if i == 0 {} else if i == 1 {} else if i == 2 {} else if i == 3 {} else if i == 4 {} else if i == 5 {} else if i == 6 {} else if i == 7 {} else if i == 8 {} else if i == 9 {} else if i == 10 {} else if i == 11 {} else if i == 12 {} else if i == 13 {} else if i == 14 {} else if i == 15 {} else if i == 16 {} else if i == 17 {} else if i == 18 {}
    }
    reveal_strlit("header checksum:  $");
    assert forall|i: int| 0 <= i < "header checksum:  $"@.len() implies #[trigger] "header checksum:  $"@[i] != '\n' by {
        if i == 0 {} else if i == 1 {} else if i == 2 {} else if i == 3 {} else if i == 4 {} else if i == 5 {} else if i == 6 {} else if i == 7 {} else if i == 8 {} else if i == 9 {} else if i == 10 {} else if i == 11 {} else if i == 12 {} else if i == 13 {} else if i == 14 {} else if i == 15 {} else if i == 16 {} else if i == 17 {} else if i == 18 {}
    }
    reveal_strlit("manufacturer:     ");
    assert forall|i: int| 0 <= i < "manufacturer:     "@.len() implies #[trigger] "manufacturer:     "@[i] != '\n' by {
        if i == 0 {} else if i == 1 {} else if i == 2 {} else if i == 3 {} else if i == 4 {} else if i == 5 {} else if i == 6 {} else if i == 7 {} else if i == 8 {} else if i == 9 {} else if i == 10 {} else if i == 11 {} else if i == 12 {} else if i == 13 {} else if i == 14 {} else if i == 15 {} else if i == 16 {} else if i == 17 {}
    }
    reveal_strlit("mask rom version: $");
    assert forall|i: int| 0 <= i < "mask rom version: $"@.len() implies #[trigger] "mask rom version: $"@[i] != '\n' by {
        if i == 0 {} else if i == 1 {} else if i == 2 {} else if i == 3 {} else if i == 4 {} else if i == 5 {} else if i == 6 {} else if i == 7 {} else if i == 8 {} else if i == 9 {} else if i == 10 {} else if i == 11 {} else if i == 12 {} else if i == 13 {} else if i == 14 {} else if i == 15 {} else if i == 16 {} else if i == 17 {} else if i == 18 {}
    }
    reveal_strlit("new licensee");
    assert forall|i: int| 0 <= i < "new licensee"@.len() implies #[trigger] "new licensee"@[i] != '\n' by {
        if i == 0 {} else if i == 1 {} else if i == 2 {} else if i == 3 {} else if i == 4 {} else if i == 5 {} else if i == 6 {} else if i == 7 {} else if i == 8 {} else if i == 9 {} else if i == 10 {} else if i == 11 {}
    }
    reveal_strlit("new licensee:     ");
    assert forall|i: int| 0 <= i < "new licensee:     "@.len() implies #[trigger] "new licensee:     "@[i] != '\n' by {
        if i == 0 {} else if i == 1 {} else if i == 2 {} else if i == 3 {} else if i == 4 {} else if i == 5 {} else if i == 6 {} else if i == 7 {} else if i == 8 {} else if i == 9 {} else if i == 10 {} else if i == 11 {} else if i == 12 {} else if i == 13 {} else if i == 14 {} else if i == 15 {} else if i == 16 {} else if i == 17 {}
    }
    reveal_strlit("nintendo logo:    ");
    assert forall|i: int| 0 <= i < "nintendo logo:    "@.len() implies #[trigger] "nintendo logo:    "@[i] != '\n' by {
        if i == 0 {} else if i == 1 {} else if i == 2 {} else if i == 3 {} else if i == 4 {} else if i == 5 {} else if i == 6 {} else if i == 7 {} else if i == 8 {} else if i == 9 {} else if i == 10 {} else if i == 11 {} else if i == 12 {} else if i == 13 {} else if i == 14 {} else if i == 15 {} else if i == 16 {} else if i == 17 {}
    }
    reveal_strlit("ok");
    assert forall|i: int| 0 <= i < "ok"@.len() implies #[trigger] "ok"@[i] != '\n' by {
        if i == 0 {} else if i == 1 {}
    }
    reveal_strlit("old licensee");
    assert forall|i: int| 0 <= i < "old licensee"@.len() implies #[trigger] "old licensee"@[i] != '\n' by {
        if i == 0 {} else if i == 1 {} else if i == 2 {} else if i == 3 {} else if i == 4 {} else if i == 5 {} else if i == 6 {} else if i == 7 {} else if i == 8 {} else if i == 9 {} else if i == 10 {} else if i == 11 {}
    }
    reveal_strlit("old licensee:     ");
    assert forall|i: int| 0 <= i < "old licensee:     "@.len() implies #[trigger] "old licensee:     "@[i] != '\n' by {
        if i == 0 {} else if i == 1 {} else if i == 2 {} else if i == 3 {} else if i == 4 {} else if i == 5 {} else if i == 6 {} else if i == 7 {} else if i == 8 {} else if i == 9 {} else if i == 10 {} else if i == 11 {} else if i == 12 {} else if i == 13 {} else if i == 14 {} else if i == 15 {} else if i == 16 {} else if i == 17 {}
    }
    reveal_strlit("publisher:        ");
    assert forall|i: int| 0 <= i < "publisher:        "@.len() implies #[trigger] "publisher:        "@[i] != '\n' by {
        if i == 0 {} else if i == 1 {} else if i == 2 {} else if i == 3 {} else if i == 4 {} else if i == 5 {} else if i == 6 {} else if i == 7 {} else if i == 8 {} else if i == 9 {} else if i == 10 {} else if i == 11 {} else if i == 12 {} else if i == 13 {} else if i == 14 {} else if i == 15 {} else if i == 16 {} else if i == 17 {}
    }
    reveal_strlit("ram size:         ");
    assert forall|i: int| 0 <= i < "ram size:         "@.len() implies #[trigger] "ram size:         "@[i] != '\n' by {
        if i == 0 {} else if i == 1 {} else if i == 2 {} else if i == 3 {} else if i == 4 {} else if i == 5 {} else if i == 6 {} else if i == 7 {} else if i == 8 {} else if i == 9 {} else if i == 10 {} else if i == 11 {} else if i == 12 {} else if i == 13 {} else if i == 14 {} else if i == 15 {} else if i == 16 {} else if i == 17 {}
    }
    reveal_strlit("rom size:         ");
    assert forall|i: int| 0 <= i < "rom size:         "@.len() implies #[trigger] "rom size:         "@[i] != '\n' by {
        if i == 0 {} else if i == 1 {} else if i == 2 {} else if i == 3 {} else if i == 4 {} else if i == 5 {} else if i == 6 {} else if i == 7 {} else if i == 8 {} else if i == 9 {} else if i == 10 {} else if i == 11 {} else if i == 12 {} else if i == 13 {} else if i == 14 {} else if i == 15 {} else if i == 16 {} else if i == 17 {}
    }
    reveal_strlit("sgb flag:         ");
    assert forall|i: int| 0 <= i < "sgb flag:         "@.len() implies #[trigger] "sgb flag:         "@[i] != '\n' by {
        if i == 0 {} else if i == 1 {} else if i == 2 {} else if i == 3 {} else if i == 4 {} else if i == 5 {} else if i == 6 {} else if i == 7 {} else if i == 8 {} else if i == 9 {} else if i == 10 {} else if i == 11 {} else if i == 12 {} else if i == 13 {} else if i == 14 {} else if i == 15 {} else if i == 16 {} else if i == 17 {}
    }
    reveal_strlit("title:            ");
    assert forall|i: int| 0 <= i < "title:            "@.len() implies #[trigger] "title:            "@[i] != '\n' by {
        if i == 0 {} else if i == 1 {} else if i == 2 {} else if i == 3 {} else if i == 4 {} else if i == 5 {} else if i == 6 {} else if i == 7 {} else if i == 8 {} else if i == 9 {} else if i == 10 {} else if i == 11 {} else if i == 12 {} else if i == 13 {} else if i == 14 {} else if i == 15 {} else if i == 16 {} else if i == 17 {}
    }
    reveal_strlit("unknown (see Pan Docs)");
    assert forall|i: int| 0 <= i < "unknown (see Pan Docs)"@.len() implies #[trigger] "unknown (see Pan Docs)"@[i] != '\n' by {
        if i == 0 {} else if i == 1 {} else if i == 2 {} else if i == 3 {} else if i == 4 {} else if i == 5 {} else if i == 6 {} else if i == 7 {} else if i == 8 {} else if i == 9 {} else if i == 10 {} else if i == 11 {} else if i == 12 {} else if i == 13 {} else if i == 14 {} else if i == 15 {} else if i == 16 {} else if i == 17 {} else if i == 18 {} else if i == 19 {} else if i == 20 {} else if i == 21 {}
    }
}

proof fn lemma_cart_type_name_no_newline(t: CartType)
    ensures
        no_newline(t.spec_name()),
{
    match t {
        CartType::RomOnly => {
            reveal_strlit("ROM ONLY");
            assert forall|i: int| 0 <= i < "ROM ONLY"@.len() implies #[trigger] "ROM ONLY"@[i] != '\n' by {
                if i == 0 {} else if i == 1 {} else if i == 2 {} else if i == 3 {} else if i == 4 {} else if i == 5 {} else if i == 6 {} else if i == 7 {}
            }
        },
        CartType::Mbc1 => {
            reveal_strlit("MBC1");
            assert forall|i: int| 0 <= i < "MBC1"@.len() implies #[trigger] "MBC1"@[i] != '\n' by {
                if i == 0 {} else if i == 1 {} else if i == 2 {} else if i == 3 {}
            }
        },
        CartType::Mbc1Ram => {
            reveal_strlit("MBC1+RAM");
            assert forall|i: int| 0 <= i < "MBC1+RAM"@.len() implies #[trigger] "MBC1+RAM"@[i] != '\n' by {
                if i == 0 {} else if i == 1 {} else if i == 2 {} else if i == 3 {} else if i == 4 {} else if i == 5 {} else if i == 6 {} else if i == 7 {}
            }
        },
        CartType::Mbc1RamBattery => {
            reveal_strlit("MBC1+RAM+BATTERY");
            assert forall|i: int| 0 <= i < "MBC1+RAM+BATTERY"@.len() implies #[trigger] "MBC1+RAM+BATTERY"@[i] != '\n' by {
                if i == 0 {} else if i == 1 {} else if i == 2 {} else if i == 3 {} else if i == 4 {} else if i == 5 {} else if i == 6 {} else if i == 7 {} else if i == 8 {} else if i == 9 {} else if i == 10 {} else if i == 11 {} else if i == 12 {} else if i == 13 {} else if i == 14 {} else if i == 15 {}
            }
        },
        CartType::Mbc2 => {
            reveal_strlit("MBC2");
            assert forall|i: int| 0 <= i < "MBC2"@.len() implies #[trigger] "MBC2"@[i] != '\n' by {
                if i == 0 {} else if i == 1 {} else if i == 2 {} else if i == 3 {}
            }
        },
        CartType::Mbc2Battery => {
            reveal_strlit("MBC2+BATTERY");
            assert forall|i: int| 0 <= i < "MBC2+BATTERY"@.len() implies #[trigger] "MBC2+BATTERY"@[i] != '\n' by {
                if i == 0 {} else if i == 1 {} else if i == 2 {} else if i == 3 {} else if i == 4 {} else if i == 5 {} else if i == 6 {} else if i == 7 {} else if i == 8 {} else if i == 9 {} else if i == 10 {} else if i == 11 {}
            }
        },
        CartType::RomRam => {
            reveal_strlit("ROM+RAM");
            assert forall|i: int| 0 <= i < "ROM+RAM"@.len() implies #[trigger] "ROM+RAM"@[i] != '\n' by {
                if i == 0 {} else if i == 1 {} else if i == 2 {} else if i == 3 {} else if i == 4 {} else if i == 5 {} else if i == 6 {}
            }
        },
        CartType::RomRamBattery => {
            reveal_strlit("ROM+RAM+BATTERY");
            assert forall|i: int| 0 <= i < "ROM+RAM+BATTERY"@.len() implies #[trigger] "ROM+RAM+BATTERY"@[i] != '\n' by {
                if i == 0 {} else if i == 1 {} else if i == 2 {} else if i == 3 {} else if i == 4 {} else if i == 5 {} else if i == 6 {} else if i == 7 {} else if i == 8 {} else if i == 9 {} else if i == 10 {} else if i == 11 {} else if i == 12 {} else if i == 13 {} else if i == 14 {}
            }
        },
        CartType::Mmm01 => {
            reveal_strlit("MMM01");
            assert forall|i: int| 0 <= i < "MMM01"@.len() implies #[trigger] "MMM01"@[i] != '\n' by {
                if i == 0 {} else if i == 1 {} else if i == 2 {} else if i == 3 {} else if i == 4 {}
            }
        },
        CartType::Mmm01Ram => {
            reveal_strlit("MMM01+RAM");
            assert forall|i: int| 0 <= i < "MMM01+RAM"@.len() implies #[trigger] "MMM01+RAM"@[i] != '\n' by {
                if i == 0 {} else if i == 1 {} else if i == 2 {} else if i == 3 {} else if i == 4 {} else if i == 5 {} else if i == 6 {} else if i == 7 {} else if i == 8 {}
            }
        },
        CartType::Mmm01RamBattery => {
            reveal_strlit("MMM01+RAM+BATTERY");
            assert forall|i: int| 0 <= i < "MMM01+RAM+BATTERY"@.len() implies #[trigger] "MMM01+RAM+BATTERY"@[i] != '\n' by {
                if i == 0 {} else if i == 1 {} else if i == 2 {} else if i == 3 {} else if i == 4 {} else if i == 5 {} else if i == 6 {} else if i == 7 {} else if i == 8 {} else if i == 9 {} else if i == 10 {} else if i == 11 {} else if i == 12 {} else if i == 13 {} else if i == 14 {} else if i == 15 {} else if i == 16 {}
            }
        },
        CartType::Mbc3TimerBattery => {
            reveal_strlit("MBC3+TIMER+BATTERY");
            assert forall|i: int| 0 <= i < "MBC3+TIMER+BATTERY"@.len() implies #[trigger] "MBC3+TIMER+BATTERY"@[i] != '\n' by {
                if i == 0 {} else if i == 1 {} else if i == 2 {} else if i == 3 {} else if i == 4 {} else if i == 5 {} else if i == 6 {} else if i == 7 {} else if i == 8 {} else if i == 9 {} else if i == 10 {} else if i == 11 {} else if i == 12 {} else if i == 13 {} else if i == 14 {} else if i == 15 {} else if i == 16 {} else if i == 17 {}
            }
        },
        CartType::Mbc3TimerRamBattery => {
            reveal_strlit("MBC3+TIMER+RAM+BATTERY");
            assert forall|i: int| 0 <= i < "MBC3+TIMER+RAM+BATTERY"@.len() implies #[trigger] "MBC3+TIMER+RAM+BATTERY"@[i] != '\n' by {
                if i == 0 {} else if i == 1 {} else if i == 2 {} else if i == 3 {} else if i == 4 {} else if i == 5 {} else if i == 6 {} else if i == 7 {} else if i == 8 {} else if i == 9 {} else if i == 10 {} else if i == 11 {} else if i == 12 {} else if i == 13 {} else if i == 14 {} else if i == 15 {} else if i == 16 {} else if i == 17 {} else if i == 18 {} else if i == 19 {} else if i == 20 {} else if i == 21 {}
            }
        },
        CartType::Mbc3 => {
            reveal_strlit("MBC3");
            assert forall|i: int| 0 <= i < "MBC3"@.len() implies #[trigger] "MBC3"@[i] != '\n' by {
                if i == 0 {} else if i == 1 {} else if i == 2 {} else if i == 3 {}
            }
        },
        CartType::Mbc3Ram => {
            reveal_strlit("MBC3+RAM");
            assert forall|i: int| 0 <= i < "MBC3+RAM"@.len() implies #[trigger] "MBC3+RAM"@[i] != '\n' by {
                if i == 0 {} else if i == 1 {} else if i == 2 {} else if i == 3 {} else if i == 4 {} else if i == 5 {} else if i == 6 {} else if i == 7 {}
            }
        },
        CartType::Mbc3RamBattery => {
            reveal_strlit("MBC3+RAM+BATTERY");
            assert forall|i: int| 0 <= i < "MBC3+RAM+BATTERY"@.len() implies #[trigger] "MBC3+RAM+BATTERY"@[i] != '\n' by {
                if i == 0 {} else if i == 1 {} else if i == 2 {} else if i == 3 {} else if i == 4 {} else if i == 5 {} else if i == 6 {} else if i == 7 {} else if i == 8 {} else if i == 9 {} else if i == 10 {} else if i == 11 {} else if i == 12 {} else if i == 13 {} else if i == 14 {} else if i == 15 {}
            }
        },
        CartType::Mbc5 => {
            reveal_strlit("MBC5");
            assert forall|i: int| 0 <= i < "MBC5"@.len() implies #[trigger] "MBC5"@[i] != '\n' by {
                if i == 0 {} else if i == 1 {} else if i == 2 {} else if i == 3 {}
            }
        },
        CartType::Mbc5Ram => {
            reveal_strlit("MBC5+RAM");
            assert forall|i: int| 0 <= i < "MBC5+RAM"@.len() implies #[trigger] "MBC5+RAM"@[i] != '\n' by {
                if i == 0 {} else if i == 1 {} else if i == 2 {} else if i == 3 {} else if i == 4 {} else if i == 5 {} else if i == 6 {} else if i == 7 {}
            }
        },
        CartType::Mbc5RamBattery => {
            reveal_strlit("MBC5+RAM+BATTERY");
            assert forall|i: int| 0 <= i < "MBC5+RAM+BATTERY"@.len() implies #[trigger] "MBC5+RAM+BATTERY"@[i] != '\n' by {
                if i == 0 {} else if i == 1 {} else if i == 2 {} else if i == 3 {} else if i == 4 {} else if i == 5 {} else if i == 6 {} else if i == 7 {} else if i == 8 {} else if i == 9 {} else if i == 10 {} else if i == 11 {} else if i == 12 {} else if i == 13 {} else if i == 14 {} else if i == 15 {}
            }
        },
        CartType::Mbc5Rumble => {
            reveal_strlit("MBC5+RUMBLE");
            assert forall|i: int| 0 <= i < "MBC5+RUMBLE"@.len() implies #[trigger] "MBC5+RUMBLE"@[i] != '\n' by {
                if i == 0 {} else if i == 1 {} else if i == 2 {} else if i == 3 {} else if i == 4 {} else if i == 5 {} else if i == 6 {} else if i == 7 {} else if i == 8 {} else if i == 9 {} else if i == 10 {}
            }
        },
        CartType::Mbc5RumbleRam => {
            reveal_strlit("MBC5+RUMBLE+RAM");
            assert forall|i: int| 0 <= i < "MBC5+RUMBLE+RAM"@.len() implies #[trigger] "MBC5+RUMBLE+RAM"@[i] != '\n' by {
                if i == 0 {} else if i == 1 {} else if i == 2 {} else if i == 3 {} else if i == 4 {} else if i == 5 {} else if i == 6 {} else if i == 7 {} else if i == 8 {} else if i == 9 {} else if i == 10 {} else if i == 11 {} else if i == 12 {} else if i == 13 {} else if i == 14 {}
            }
        },
        CartType::Mbc5RumbleRamBattery => {
            reveal_strlit("MBC5+RUMBLE+RAM+BATTERY");
            assert forall|i: int| 0 <= i < "MBC5+RUMBLE+RAM+BATTERY"@.len() implies #[trigger] "MBC5+RUMBLE+RAM+BATTERY"@[i] != '\n' by {
                if i == 0 {} else if i == 1 {} else if i == 2 {} else if i == 3 {} else if i == 4 {} else if i == 5 {} else if i == 6 {} else if i == 7 {} else if i == 8 {} else if i == 9 {} else if i == 10 {} else if i == 11 {} else if i == 12 {} else if i == 13 {} else if i == 14 {} else if i == 15 {} else if i == 16 {} else if i == 17 {} else if i == 18 {} else if i == 19 {} else if i == 20 {} else if i == 21 {} else if i == 22 {}
            }
        },
        CartType::Mbc6 => {
            reveal_strlit("MBC6");
            assert forall|i: int| 0 <= i < "MBC6"@.len() implies #[trigger] "MBC6"@[i] != '\n' by {
                if i == 0 {} else if i == 1 {} else if i == 2 {} else if i == 3 {}
            }
        },
        CartType::Mbc7SensorRumbleRamBattery => {
            reveal_strlit("MBC7+SENSOR+RUMBLE+RAM+BATTERY");
            assert forall|i: int| 0 <= i < "MBC7+SENSOR+RUMBLE+RAM+BATTERY"@.len() implies #[trigger] "MBC7+SENSOR+RUMBLE+RAM+BATTERY"@[i] != '\n' by {
                if i == 0 {} else if i == 1 {} else if i == 2 {} else if i == 3 {} else if i == 4 {} else if i == 5 {} else if i == 6 {} else if i == 7 {} else if i == 8 {} else if i == 9 {} else if i == 10 {} else if i == 11 {} else if i == 12 {} else if i == 13 {} else if i == 14 {} else if i == 15 {} else if i == 16 {} else if i == 17 {} else if i == 18 {} else if i == 19 {} else if i == 20 {} else if i == 21 {} else if i == 22 {} else if i == 23 {} else if i == 24 {} else if i == 25 {} else if i == 26 {} else if i == 27 {} else if i == 28 {} else if i == 29 {}
            }
        },
        CartType::PocketCamera => {
            reveal_strlit("POCKET CAMERA");
            assert forall|i: int| 0 <= i < "POCKET CAMERA"@.len() implies #[trigger] "POCKET CAMERA"@[i] != '\n' by {
                if i == 0 {} else if i == 1 {} else if i == 2 {} else if i == 3 {} else if i == 4 {} else if i == 5 {} else if i == 6 {} else if i == 7 {} else if i == 8 {} else if i == 9 {} else if i == 10 {} else if i == 11 {} else if i == 12 {}
            }
        },
        CartType::BandaiTama5 => {
            reveal_strlit("BANDAI TAMA5");
            assert forall|i: int| 0 <= i < "BANDAI TAMA5"@.len() implies #[trigger] "BANDAI TAMA5"@[i] != '\n' by {
                if i == 0 {} else if i == 1 {} else if i == 2 {} else if i == 3 {} else if i == 4 {} else if i == 5 {} else if i == 6 {} else if i == 7 {} else if i == 8 {} else if i == 9 {} else if i == 10 {} else if i == 11 {}
            }
        },
        CartType::Huc3 => {
            reveal_strlit("HuC3");
            assert forall|i: int| 0 <= i < "HuC3"@.len() implies #[trigger] "HuC3"@[i] != '\n' by {
                if i == 0 {} else if i == 1 {} else if i == 2 {} else if i == 3 {}
            }
        },
        CartType::Huc1RamBattery => {
            reveal_strlit("HuC1+RAM+BATTERY");
            assert forall|i: int| 0 <= i < "HuC1+RAM+BATTERY"@.len() implies #[trigger] "HuC1+RAM+BATTERY"@[i] != '\n' by {
                if i == 0 {} else if i == 1 {} else if i == 2 {} else if i == 3 {} else if i == 4 {} else if i == 5 {} else if i == 6 {} else if i == 7 {} else if i == 8 {} else if i == 9 {} else if i == 10 {} else if i == 11 {} else if i == 12 {} else if i == 13 {} else if i == 14 {} else if i == 15 {}
            }
        },
    }
}

proof fn lemma_rom_size_name_no_newline(t: RomSize)
    ensures
        no_newline(t.spec_name()),
{
    match t {
        RomSize::Kb32 => {
            reveal_strlit("32 KiB");
            assert forall|i: int| 0 <= i < "32 KiB"@.len() implies #[trigger] "32 KiB"@[i] != '\n' by {
                if i == 0 {} else if i == 1 {} else if i == 2 {} else if i == 3 {} else if i == 4 {} else if i == 5 {}
            }
        },
        RomSize::Kb64 => {
            reveal_strlit("64 KiB");
            assert forall|i: int| 0 <= i < "64 KiB"@.len() implies #[trigger] "64 KiB"@[i] != '\n' by {
                if i == 0 {} else if i == 1 {} else if i == 2 {} else if i == 3 {} else if i == 4 {} else if i == 5 {}
            }
        },
        RomSize::Kb128 => {
            reveal_strlit("128 KiB");
            assert forall|i: int| 0 <= i < "128 KiB"@.len() implies #[trigger] "128 KiB"@[i] != '\n' by {
                if i == 0 {} else if i == 1 {} else if i == 2 {} else if i == 3 {} else if i == 4 {} else if i == 5 {} else if i == 6 {}
            }
        },
        RomSize::Kb256 => {
            reveal_strlit("256 KiB");
            assert forall|i: int| 0 <= i < "256 KiB"@.len() implies #[trigger] "256 KiB"@[i] != '\n' by {
                if i == 0 {} else if i == 1 {} else if i == 2 {} else if i == 3 {} else if i == 4 {} else if i == 5 {} else if i == 6 {}
            }
        },
        RomSize::Kb512 => {
            reveal_strlit("512 KiB");
            assert forall|i: int| 0 <= i < "512 KiB"@.len() implies #[trigger] "512 KiB"@[i] != '\n' by {
                if i == 0 {} else if i == 1 {} else if i == 2 {} else if i == 3 {} else if i == 4 {} else if i == 5 {} else if i == 6 {}
            }
        },
        RomSize::Mb1 => {
            reveal_strlit("1 MiB");
            assert forall|i: int| 0 <= i < "1 MiB"@.len() implies #[trigger] "1 MiB"@[i] != '\n' by {
                if i == 0 {} else if i == 1 {} else if i == 2 {} else if i == 3 {} else if i == 4 {}
            }
        },
        RomSize::Mb2 => {
            reveal_strlit("2 MiB");
            assert forall|i: int| 0 <= i < "2 MiB"@.len() implies #[trigger] "2 MiB"@[i] != '\n' by {
                if i == 0 {} else if i == 1 {} else if i == 2 {} else if i == 3 {} else if i == 4 {}
            }
        },
        RomSize::Mb4 => {
            reveal_strlit("4 MiB");
            assert forall|i: int| 0 <= i < "4 MiB"@.len() implies #[trigger] "4 MiB"@[i] != '\n' by {
                if i == 0 {} else if i == 1 {} else if i == 2 {} else if i == 3 {} else if i == 4 {}
            }
        },
        RomSize::Mb8 => {
            reveal_strlit("8 MiB");
            assert forall|i: int| 0 <= i < "8 MiB"@.len() implies #[trigger] "8 MiB"@[i] != '\n' by {
                if i == 0 {} else if i == 1 {} else if i == 2 {} else if i == 3 {} else if i == 4 {}
            }
        },
        RomSize::Mb1_1 => {
            reveal_strlit("1.1 MiB");
            assert forall|i: int| 0 <= i < "1.1 MiB"@.len() implies #[trigger] "1.1 MiB"@[i] != '\n' by {
                if i == 0 {} else if i == 1 {} else if i == 2 {} else if i == 3 {} else if i == 4 {} else if i == 5 {} else if i == 6 {}
            }
        },
        RomSize::Mb1_2 => {
            reveal_strlit("1.2 MiB");
            assert forall|i: int| 0 <= i < "1.2 MiB"@.len() implies #[trigger] "1.2 MiB"@[i] != '\n' by {
                if i == 0 {} else if i == 1 {} else if i == 2 {} else if i == 3 {} else if i == 4 {} else if i == 5 {} else if i == 6 {}
            }
        },
        RomSize::Mb1_5 => {
            reveal_strlit("1.5 MiB");
            assert forall|i: int| 0 <= i < "1.5 MiB"@.len() implies #[trigger] "1.5 MiB"@[i] != '\n' by {
                if i == 0 {} else if i == 1 {} else if i == 2 {} else if i == 3 {} else if i == 4 {} else if i == 5 {} else if i == 6 {}
            }
        },
    }
}

proof fn lemma_ram_size_name_no_newline(t: RamSize)
    ensures
        no_newline(t.spec_name()),
{
    match t {
        RamSize::NoRam => {
            reveal_strlit("0");
            assert(no_newline("0"@));
        },
        RamSize::Unused => {
            reveal_strlit("unused");
            assert forall|i: int| 0 <= i < "unused"@.len() implies #[trigger] "unused"@[i] != '\n' by {
                if i == 0 {} else if i == 1 {} else if i == 2 {} else if i == 3 {} else if i == 4 {} else if i == 5 {}
            }
        },
        RamSize::Kb8 => {
            reveal_strlit("8 KiB");
            assert forall|i: int| 0 <= i < "8 KiB"@.len() implies #[trigger] "8 KiB"@[i] != '\n' by {
                if i == 0 {} else if i == 1 {} else if i == 2 {} else if i == 3 {} else if i == 4 {}
            }
        },
        RamSize::Kb32 => {
            reveal_strlit("32 KiB");
            assert forall|i: int| 0 <= i < "32 KiB"@.len() implies #[trigger] "32 KiB"@[i] != '\n' by {
                if i == 0 {} else if i == 1 {} else if i == 2 {} else if i == 3 {} else if i == 4 {} else if i == 5 {}
            }
        },
        RamSize::Kb128 => {
            reveal_strlit("128 KiB");
            assert forall|i: int| 0 <= i < "128 KiB"@.len() implies #[trigger] "128 KiB"@[i] != '\n' by {
                if i == 0 {} else if i == 1 {} else if i == 2 {} else if i == 3 {} else if i == 4 {} else if i == 5 {} else if i == 6 {}
            }
        },
        RamSize::Kb64 => {
            reveal_strlit("64 KiB");
            assert forall|i: int| 0 <= i < "64 KiB"@.len() implies #[trigger] "64 KiB"@[i] != '\n' by {
                if i == 0 {} else if i == 1 {} else if i == 2 {} else if i == 3 {} else if i == 4 {} else if i == 5 {}
            }
        },
    }
}

proof fn lemma_destination_name_no_newline(t: Destination)
    ensures
        no_newline(t.spec_name()),
{
    match t {
        Destination::Japan => {
            reveal_strlit("Japan (and possibly overseas)");
            assert forall|i: int| 0 <= i < "Japan (and possibly overseas)"@.len() implies #[trigger] "Japan (and possibly overseas)"@[i] != '\n' by {
                if i == 0 {} else if i == 1 {} else if i == 2 {} else if i == 3 {} else if i == 4 {} else if i == 5 {} else if i == 6 {} else if i == 7 {} else if i == 8 {} else if i == 9 {} else if i == 10 {} else if i == 11 {} else if i == 12 {} else if i == 13 {} else if i == 14 {} else if i == 15 {} else if i == 16 {} else if i == 17 {} else if i == 18 {} else if i == 19 {} else if i == 20 {} else if i == 21 {} else if i == 22 {} else if i == 23 {} else if i == 24 {} else if i == 25 {} else if i == 26 {} else if i == 27 {} else if i == 28 {}
            }
        },
        Destination::Overseas => {
            reveal_strlit("Overseas only");
            assert forall|i: int| 0 <= i < "Overseas only"@.len() implies #[trigger] "Overseas only"@[i] != '\n' by {
                if i == 0 {} else if i == 1 {} else if i == 2 {} else if i == 3 {} else if i == 4 {} else if i == 5 {} else if i == 6 {} else if i == 7 {} else if i == 8 {} else if i == 9 {} else if i == 10 {} else if i == 11 {} else if i == 12 {}
            }
        },
    }
}

proof fn lemma_cgb_name_no_newline(t: CartridgeCgbSupport)
    ensures
        no_newline(t.spec_name()),
{
    match t {
        CartridgeCgbSupport::CgbCompatible => {
            reveal_strlit("CGB compatible (works on DMG too)");
            assert forall|i: int| 0 <= i < "CGB compatible (works on DMG too)"@.len() implies #[trigger] "CGB compatible (works on DMG too)"@[i] != '\n' by {
                if i == 0 {} else if i == 1 {} else if i == 2 {} else if i == 3 {} else if i == 4 {} else if i == 5 {} else if i == 6 {} else if i == 7 {} else if i == 8 {} else if i == 9 {} else if i == 10 {} else if i == 11 {} else if i == 12 {} else if i == 13 {} else if i == 14 {} else if i == 15 {} else if i == 16 {} else if i == 17 {} else if i == 18 {} else if i == 19 {} else if i == 20 {} else if i == 21 {} else if i == 22 {} else if i == 23 {} else if i == 24 {} else if i == 25 {} else if i == 26 {} else if i == 27 {} else if i == 28 {} else if i == 29 {} else if i == 30 {} else if i == 31 {} else if i == 32 {}
            }
        },
        CartridgeCgbSupport::CgbOnly => {
            reveal_strlit("CGB only");
            assert forall|i: int| 0 <= i < "CGB only"@.len() implies #[trigger] "CGB only"@[i] != '\n' by {
                if i == 0 {} else if i == 1 {} else if i == 2 {} else if i == 3 {} else if i == 4 {} else if i == 5 {} else if i == 6 {} else if i == 7 {}
            }
        },
        CartridgeCgbSupport::DmgOnly => {
            reveal_strlit("DMG / non-CGB");
            assert forall|i: int| 0 <= i < "DMG / non-CGB"@.len() implies #[trigger] "DMG / non-CGB"@[i] != '\n' by {
                if i == 0 {} else if i == 1 {} else if i == 2 {} else if i == 3 {} else if i == 4 {} else if i == 5 {} else if i == 6 {} else if i == 7 {} else if i == 8 {} else if i == 9 {} else if i == 10 {} else if i == 11 {} else if i == 12 {}
            }
        },
        CartridgeCgbSupport::Other(_) => {
            reveal_strlit("unknown CGB flag");
            assert forall|i: int| 0 <= i < "unknown CGB flag"@.len() implies #[trigger] "unknown CGB flag"@[i] != '\n' by {
                if i == 0 {} else if i == 1 {} else if i == 2 {} else if i == 3 {} else if i == 4 {} else if i == 5 {} else if i == 6 {} else if i == 7 {} else if i == 8 {} else if i == 9 {} else if i == 10 {} else if i == 11 {} else if i == 12 {} else if i == 13 {} else if i == 14 {} else if i == 15 {}
            }
        },
    }
}

proof fn lemma_hex_bytes_no_newline(b: Seq<u8>)
    ensures
        no_newline(spec_hex_bytes(b)),
    decreases b.len(),
{
    reveal_strlit(" ");
    assert(no_newline(" "@));
    if b.len() == 1 {
        lemma_hex_chars_no_newline(b[0] as nat, 2);
    } else if b.len() > 1 {
        lemma_hex_bytes_no_newline(b.drop_last());
        lemma_hex_chars_no_newline(b.last() as nat, 2);
        lemma_no_newline_concat(spec_hex_bytes(b.drop_last()), " "@);
        lemma_no_newline_concat(spec_hex_bytes(b.drop_last()) + " "@, hex2(b.last()));
    }
}

proof fn lemma_ascii_graphic_no_newline(b: Seq<u8>)
    ensures
        no_newline(spec_ascii_graphic(b)),
{
    let g = spec_ascii_graphic(b);
    assert forall|i: int| 0 <= i < g.len() implies #[trigger] g[i] != '\n' by {
        let x = graphic_or_dot(b[i]);
        assert(g[i] == x as char);
        assert(x != 10);
    }
}

proof fn lemma_break_literals()
    ensures
        "--- cartridge header ---\n"@ == "--- cartridge header ---"@ + "\n"@,
        ")\n"@ == ")"@ + "\n"@,
        " bytes)\n"@ == " bytes)"@ + "\n"@,
        "\n"@ == seq!['\n'],
{
    reveal_strlit("--- cartridge header ---\n");
    reveal_strlit("--- cartridge header ---");
    reveal_strlit(")\n");
    reveal_strlit(")");
    reveal_strlit(" bytes)\n");
    reveal_strlit(" bytes)");
    reveal_strlit("\n");
    assert("--- cartridge header ---\n"@ =~= "--- cartridge header ---"@ + "\n"@);
    assert(")\n"@ =~= ")"@ + "\n"@);
    assert(" bytes)\n"@ =~= " bytes)"@ + "\n"@);
    assert("\n"@ =~= seq!['\n']);
}

proof fn lemma_line_bodies(label: Seq<char>, byte: u8, name: Seq<char>, known: Option<(Seq<char>, nat, nat)>)
    ensures
        spec_byte_line(label, byte, name) == byte_line_body(label, byte, name) + "\n"@,
        spec_size_line(label, byte, known) == size_line_body(label, byte, known) + "\n"@,
{
    lemma_break_literals();
    assert(spec_byte_line(label, byte, name) =~= byte_line_body(label, byte, name) + "\n"@);
    match known {
        Some((n, banks, bytes)) => {
            assert(spec_size_line(label, byte, known) =~= size_line_body(label, byte, known) + "\n"@);
        },
        None => {
            assert(spec_size_line(label, byte, known) =~= size_line_body(label, byte, known) + "\n"@);
        },
    }
}

/// The report is seventeen lines joined by line breaks, with no break after
/// the last: a banner, then one line per field. The logo line ends in `ok`
/// exactly when the logo matches, and the two checksum lines exactly when
/// the stored checksum equals the computed one. When the title and the
/// publisher names hold no line break, no line does.
pub proof fn lemma_report_line_structure(h: Header, new_pub: Option<&str>, old_pub: Option<&str>)
    ensures
        ({
            let ls = report_lines(h, new_pub, old_pub);
            &&& ls.len() == 17
            &&& spec_describe(h, new_pub, old_pub) == join_lines(ls)
            &&& ls[0] == "--- cartridge header ---"@
            &&& ends_with(ls[2], "ok"@) == h.logo_ok
            &&& ends_with(ls[15], "ok"@) == (h.header_checksum == h.computed_header_checksum)
            &&& ends_with(ls[16], "ok"@) == (h.global_checksum == h.computed_global_checksum)
            &&& (no_newline(h.title@) && no_newline(opt_name(new_pub)) && no_newline(opt_name(old_pub)))
                ==> forall|i: int| 0 <= i < 17 ==> #[trigger] no_newline(ls[i])
        }),
{
    let ls = report_lines(h, new_pub, old_pub);
    lemma_report_parts(h, new_pub, old_pub);
    lemma_join_17(ls);
    lemma_join_groups(ls);
    lemma_line_ends(h, new_pub, old_pub);
    if no_newline(h.title@) && no_newline(opt_name(new_pub)) && no_newline(opt_name(old_pub)) {
        lemma_lines_no_newline(h, new_pub, old_pub);
    }
}

/// The four groups of report lines, each with its line breaks.
spec fn group_head(ls: Seq<Seq<char>>) -> Seq<char> {
    ls[0] + "\n"@ + ls[1] + "\n"@ + ls[2] + "\n"@ + ls[3] + "\n"@ + ls[4] + "\n"@
}

spec fn group_flags(ls: Seq<Seq<char>>) -> Seq<char> {
    ls[5] + "\n"@ + ls[6] + "\n"@ + ls[7] + "\n"@ + ls[8] + "\n"@
}

spec fn group_sizes(ls: Seq<Seq<char>>) -> Seq<char> {
    ls[9] + "\n"@ + ls[10] + "\n"@ + ls[11] + "\n"@ + ls[12] + "\n"@
}

spec fn group_tail(ls: Seq<Seq<char>>) -> Seq<char> {
    ls[13] + "\n"@ + ls[14] + "\n"@ + ls[15] + "\n"@ + ls[16]
}

#[verifier::rlimit(50)]
proof fn lemma_report_parts(h: Header, new_pub: Option<&str>, old_pub: Option<&str>)
    ensures
        ({
            let ls = report_lines(h, new_pub, old_pub);
            spec_describe(h, new_pub, old_pub) == group_head(ls) + group_flags(ls) + group_sizes(ls) + group_tail(ls)
        }),
{
    let ls = report_lines(h, new_pub, old_pub);
    lemma_head_part(h, new_pub, old_pub, ls);
    lemma_flags_part(h, new_pub, old_pub, ls);
    lemma_sizes_part(h, new_pub, old_pub, ls);
    lemma_tail_part(h, new_pub, old_pub, ls);
}

proof fn lemma_head_part(h: Header, new_pub: Option<&str>, old_pub: Option<&str>, ls: Seq<Seq<char>>)
    requires
        ls == report_lines(h, new_pub, old_pub),
    ensures
        spec_report_head(h) == group_head(ls),
{
    lemma_break_literals();
    assert(spec_report_head(h) =~= group_head(ls));
}

proof fn lemma_flags_part(h: Header, new_pub: Option<&str>, old_pub: Option<&str>, ls: Seq<Seq<char>>)
    requires
        ls == report_lines(h, new_pub, old_pub),
    ensures
        spec_report_flags(h, new_pub) == group_flags(ls),
{
    lemma_break_literals();
    lemma_line_bodies("cgb flag:         "@, h.cgb_byte, h.cgb.spec_name(), None);
    lemma_line_bodies("sgb flag:         "@, h.sgb_byte, sgb_text(h), None);
    lemma_line_bodies("cart type:        "@, h.cart_type_byte, cart_type_name(h), None);
    assert(spec_report_flags(h, new_pub) =~= group_flags(ls));
}

proof fn lemma_sizes_part(h: Header, new_pub: Option<&str>, old_pub: Option<&str>, ls: Seq<Seq<char>>)
    requires
        ls == report_lines(h, new_pub, old_pub),
    ensures
        spec_report_sizes(h, old_pub) == group_sizes(ls),
{
    lemma_line_bodies("rom size:         "@, h.rom_size_byte, unknown_label(), rom_size_known(h));
    lemma_line_bodies("ram size:         "@, h.ram_size_byte, unknown_label(), ram_size_known(h));
    lemma_line_bodies("destination:      "@, h.destination_byte, destination_name(h), None);
    lemma_line_bodies("old licensee:     "@, h.old_licensee, opt_name(old_pub), None);
    assert(spec_report_sizes(h, old_pub) =~= group_sizes(ls));
}

proof fn lemma_tail_part(h: Header, new_pub: Option<&str>, old_pub: Option<&str>, ls: Seq<Seq<char>>)
    requires
        ls == report_lines(h, new_pub, old_pub),
    ensures
        spec_report_tail(h, new_pub, old_pub) == group_tail(ls),
{
    lemma_break_literals();
    assert(spec_report_tail(h, new_pub, old_pub) =~= group_tail(ls));
}

#[verifier::rlimit(50)]
proof fn lemma_join_groups(ls: Seq<Seq<char>>)
    requires
        ls.len() == 17,
        join_lines(ls) == ls[0] + "\n"@ + ls[1] + "\n"@ + ls[2] + "\n"@ + ls[3] + "\n"@ + ls[4] + "\n"@ + ls[5]
            + "\n"@ + ls[6] + "\n"@ + ls[7] + "\n"@ + ls[8] + "\n"@ + ls[9] + "\n"@ + ls[10] + "\n"@ + ls[11]
            + "\n"@ + ls[12] + "\n"@ + ls[13] + "\n"@ + ls[14] + "\n"@ + ls[15] + "\n"@ + ls[16],
    ensures
        join_lines(ls) == group_head(ls) + group_flags(ls) + group_sizes(ls) + group_tail(ls),
{
    assert(join_lines(ls) =~= group_head(ls) + group_flags(ls) + group_sizes(ls) + group_tail(ls));
}

proof fn lemma_join_17(ls: Seq<Seq<char>>)
    requires
        ls.len() == 17,
    ensures
        join_lines(ls) == ls[0] + "\n"@ + ls[1] + "\n"@ + ls[2] + "\n"@ + ls[3] + "\n"@ + ls[4] + "\n"@ + ls[5]
            + "\n"@ + ls[6] + "\n"@ + ls[7] + "\n"@ + ls[8] + "\n"@ + ls[9] + "\n"@ + ls[10] + "\n"@ + ls[11]
            + "\n"@ + ls[12] + "\n"@ + ls[13] + "\n"@ + ls[14] + "\n"@ + ls[15] + "\n"@ + ls[16],
{
    lemma_join_prefix(ls, 17);
    assert(ls.take(17) =~= ls);
    reveal_with_fuel(join_prefix, 18);
}

proof fn lemma_join_prefix(ls: Seq<Seq<char>>, k: int)
    requires
        1 <= k <= ls.len(),
    ensures
        join_lines(ls.take(k)) == join_prefix(ls, k),
    decreases k,
{
    if k > 1 {
        lemma_join_prefix(ls, k - 1);
        assert(ls.take(k).drop_last() =~= ls.take(k - 1));
    }
}

/// `ls[0..k]` joined by line breaks, written out.
spec fn join_prefix(ls: Seq<Seq<char>>, k: int) -> Seq<char>
    decreases k,
{
    if k <= 1 {
        ls[0]
    } else {
        join_prefix(ls, k - 1) + "\n"@ + ls[k - 1]
    }
}

proof fn lemma_line_ends(h: Header, new_pub: Option<&str>, old_pub: Option<&str>)
    ensures
        ({
            let ls = report_lines(h, new_pub, old_pub);
            &&& ends_with(ls[2], "ok"@) == h.logo_ok
            &&& ends_with(ls[15], "ok"@) == (h.header_checksum == h.computed_header_checksum)
            &&& ends_with(ls[16], "ok"@) == (h.global_checksum == h.computed_global_checksum)
        }),
{
    let ls = report_lines(h, new_pub, old_pub);
    reveal_strlit("ok");
    reveal_strlit("MISMATCH");
    reveal_strlit("FAIL");
    let (a, b, c) = (ls[2], ls[15], ls[16]);
    if h.logo_ok {
        assert(a.skip(a.len() - 2) =~= "ok"@);
    } else {
        assert(a.skip(a.len() - 2)[1] != "ok"@[1]);
    }
    if h.header_checksum == h.computed_header_checksum {
        assert(b.skip(b.len() - 2) =~= "ok"@);
    } else {
        assert(b.skip(b.len() - 2)[1] != "ok"@[1]);
    }
    if h.global_checksum == h.computed_global_checksum {
        assert(c.skip(c.len() - 2) =~= "ok"@);
    } else {
        assert(c.skip(c.len() - 2)[1] != "ok"@[1]);
    }
}

proof fn lemma_lines_no_newline(h: Header, new_pub: Option<&str>, old_pub: Option<&str>)
    requires
        no_newline(h.title@),
        no_newline(opt_name(new_pub)),
        no_newline(opt_name(old_pub)),
    ensures
        forall|i: int| 0 <= i < 17 ==> #[trigger] no_newline(report_lines(h, new_pub, old_pub)[i]),
{
    broadcast use lemma_no_newline_add;
    let ls = report_lines(h, new_pub, old_pub);
    lemma_report_literals();
    lemma_cgb_name_no_newline(h.cgb);
    lemma_hex_bytes_no_newline(h.entry_point@);
    lemma_hex_bytes_no_newline(h.manufacturer@);
    lemma_ascii_graphic_no_newline(h.manufacturer@);
    lemma_ascii_graphic_no_newline(h.new_licensee@);
    lemma_hex_chars_no_newline(h.cgb_byte as nat, 2);
    lemma_hex_chars_no_newline(h.sgb_byte as nat, 2);
    lemma_hex_chars_no_newline(h.cart_type_byte as nat, 2);
    lemma_hex_chars_no_newline(h.rom_size_byte as nat, 2);
    lemma_hex_chars_no_newline(h.ram_size_byte as nat, 2);
    lemma_hex_chars_no_newline(h.destination_byte as nat, 2);
    lemma_hex_chars_no_newline(h.old_licensee as nat, 2);
    lemma_hex_chars_no_newline(h.mask_rom_version as nat, 2);
    lemma_hex_chars_no_newline(h.header_checksum as nat, 2);
    lemma_hex_chars_no_newline(h.computed_header_checksum as nat, 2);
    lemma_hex_chars_no_newline(h.global_checksum as nat, 4);
    lemma_hex_chars_no_newline(h.computed_global_checksum as nat, 4);
    match h.cart_type {
        Some(t) => lemma_cart_type_name_no_newline(t),
        None => {},
    }
    match h.destination {
        Some(d) => lemma_destination_name_no_newline(d),
        None => {},
    }
    match h.rom_size {
        Some(r) => {
            lemma_rom_size_name_no_newline(r);
            lemma_dec_chars_no_newline(r.spec_bank_count() as nat);
            lemma_dec_chars_no_newline((r.spec_bank_count() * 16384) as nat);
        },
        None => {},
    }
    match h.ram_size {
        Some(r) => {
            lemma_ram_size_name_no_newline(r);
            lemma_dec_chars_no_newline(r.spec_bank_count() as nat);
            lemma_dec_chars_no_newline((r.spec_bank_count() * 8192) as nat);
        },
        None => {},
    }
    assert(no_newline(ls[0]) && no_newline(ls[1]) && no_newline(ls[2]) && no_newline(ls[3]));
    assert(no_newline(ls[4]) && no_newline(ls[5]) && no_newline(ls[6]) && no_newline(ls[7]));
    assert(no_newline(ls[8]) && no_newline(ls[9]) && no_newline(ls[10]) && no_newline(ls[11]));
    assert(no_newline(ls[12]) && no_newline(ls[13]) && no_newline(ls[14]) && no_newline(ls[15]));
    assert(no_newline(ls[16]));
}

} // verus!
