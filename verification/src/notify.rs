//! Rendering of write notifications: every memory write the core makes
//! is mirrored to an attached observer as a textual record
//! `u8:<address>:<value>`, `u16:...` or `u32:...`, with the address and
//! value in decimal and a trailing newline.

use vstd::prelude::*;

use crate::bus::{AccessWidth, WriteNote};

verus! {

/// The decimal digits of `v`, most significant first, as ASCII bytes.
pub open spec fn dec_digits(v: u32) -> Seq<u8>
    decreases v,
{
    if v < 10 {
        seq![(0x30 + v) as u8]
    } else {
        dec_digits(v / 10).push((0x30 + v % 10) as u8)
    }
}

/// The record prefix naming the width of the write.
pub open spec fn width_prefix(w: AccessWidth) -> Seq<u8> {
    match w {
        AccessWidth::Byte => seq![0x75u8, 0x38u8],
        AccessWidth::Word => seq![0x75u8, 0x31u8, 0x36u8],
        AccessWidth::Long => seq![0x75u8, 0x33u8, 0x32u8],
    }
}

/// The full record for one write notification: width prefix, colon,
/// decimal address, colon, decimal value, newline.
pub open spec fn note_record(n: WriteNote) -> Seq<u8> {
    width_prefix(n.width) + seq![0x3au8] + dec_digits(n.addr) + seq![0x3au8] + dec_digits(n.value)
        + seq![0x0au8]
}

/// Append the decimal digits of `v` to `out`.
fn push_decimal(out: &mut Vec<u8>, v: u32)
    ensures
        final(out)@ == old(out)@ + dec_digits(v),
    decreases v,
{
    if v < 10 {
        out.push(0x30u8 + (v as u8));
        proof {
            assert(out@ =~= old(out)@ + dec_digits(v));
        }
    } else {
        push_decimal(out, v / 10);
        out.push(0x30u8 + ((v % 10) as u8));
        proof {
            assert(out@ =~= old(out)@ + dec_digits(v));
        }
    }
}

/// Render one write notification as the bytes of its textual record.
pub fn render_note(note: &WriteNote) -> (out: Vec<u8>)
    ensures
        out@ == note_record(*note),
{
    let mut out: Vec<u8> = Vec::new();
    out.push(0x75);
    match note.width {
        AccessWidth::Byte => {
            out.push(0x38);
        },
        AccessWidth::Word => {
            out.push(0x31);
            out.push(0x36);
        },
        AccessWidth::Long => {
            out.push(0x33);
            out.push(0x32);
        },
    }
    out.push(0x3a);
    push_decimal(&mut out, note.addr);
    out.push(0x3a);
    push_decimal(&mut out, note.value);
    out.push(0x0a);
    proof {
        assert(out@ =~= note_record(*note));
    }
    out
}

} // verus!
