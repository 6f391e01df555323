use vstd::prelude::*;

use crate::bits::{hi_byte, lemma_shift_right, lemma_split_word, lo_byte};
use crate::cpu::{add16, Cpu};
use crate::cpu_components::{flags_byte, FlagsRegister, MemoryBus};

verus! {

broadcast use MemoryBus::lemma_view_len;

#[verifier::external_type_specification]
#[verifier::external_body]
pub struct ExFromUtf8Error(std::string::FromUtf8Error);

/// The ASCII code of the upper-case hexadecimal digit `d` (0-15).
pub open spec fn hex_digit(d: int) -> u8 {
    if d < 10 {
        (d + 48) as u8
    } else {
        (d + 55) as u8
    }
}

/// A byte as two upper-case hexadecimal digits.
pub open spec fn hex_byte(v: u8) -> Seq<u8> {
    seq![hex_digit((v / 16) as int), hex_digit((v % 16) as int)]
}

/// A 16-bit value as four upper-case hexadecimal digits.
pub open spec fn hex_word(v: u16) -> Seq<u8> {
    hex_byte(hi_byte(v)) + hex_byte(lo_byte(v))
}

/// The flags as logged: with `detailed`, the letters C, H, N, Z in that order, each replaced
/// by '-' when its flag is reset; otherwise the flags byte in hexadecimal.
pub open spec fn flags_text(flags: FlagsRegister, detailed: bool) -> Seq<u8> {
    if detailed {
        seq![
            if flags.c { 'C' as u8 } else { '-' as u8 },
            if flags.h { 'H' as u8 } else { '-' as u8 },
            if flags.n { 'N' as u8 } else { '-' as u8 },
            if flags.z { 'Z' as u8 } else { '-' as u8 },
        ]
    } else {
        hex_byte(flags_byte(flags))
    }
}

/// The log line of the CPU state, in ASCII:
/// `A:00 F:11 B:22 C:33 D:44 E:55 H:66 L:77 SP:8888 PC:9999 PCMEM:AA,BB,CC,DD` and a
/// newline, PCMEM being the four bytes from PC on (wrapping).
pub open spec fn spec_log_line(cpu: Cpu, detailed: bool) -> Seq<u8> {
    let r = cpu.registers;
    let pc = r.pc;
    seq!['A' as u8, ':' as u8] + hex_byte(r.a) + seq![' ' as u8, 'F' as u8, ':' as u8]
        + flags_text(r.flags, detailed) + seq![' ' as u8, 'B' as u8, ':' as u8] + hex_byte(r.b)
        + seq![' ' as u8, 'C' as u8, ':' as u8] + hex_byte(r.c) + seq![
        ' ' as u8,
        'D' as u8,
        ':' as u8,
    ] + hex_byte(r.d) + seq![' ' as u8, 'E' as u8, ':' as u8] + hex_byte(r.e) + seq![
        ' ' as u8,
        'H' as u8,
        ':' as u8,
    ] + hex_byte(r.h) + seq![' ' as u8, 'L' as u8, ':' as u8] + hex_byte(r.l) + seq![
        ' ' as u8,
        'S' as u8,
        'P' as u8,
        ':' as u8,
    ] + hex_word(r.sp) + seq![' ' as u8, 'P' as u8, 'C' as u8, ':' as u8] + hex_word(pc) + seq![
        ' ' as u8,
        'P' as u8,
        'C' as u8,
        'M' as u8,
        'E' as u8,
        'M' as u8,
        ':' as u8,
    ] + hex_byte(cpu.spec_mem(pc)) + seq![',' as u8] + hex_byte(cpu.spec_mem(add16(pc, 1)))
        + seq![',' as u8] + hex_byte(cpu.spec_mem(add16(pc, 2))) + seq![',' as u8] + hex_byte(
        cpu.spec_mem(add16(pc, 3)),
    ) + seq!['\n' as u8]
}

/// `String::from_utf8`: bytes that are all ASCII are valid UTF-8, so the result is `Ok` with
/// one character per byte. Nothing is claimed of other bytes.
#[verifier::external_body]
fn string_from_utf8(bytes: Vec<u8>) -> (r: Result<String, std::string::FromUtf8Error>)
    ensures
        (forall|i: int| 0 <= i < bytes@.len() ==> bytes@[i] < 128) ==> r is Ok && r->Ok_0@
            == bytes@.map_values(|b: u8| b as char),
{
    String::from_utf8(bytes)
}

/// Whether every byte is an ASCII code (below 128).
pub open spec fn is_ascii_bytes(s: Seq<u8>) -> bool {
    forall|i: int| 0 <= i < s.len() ==> s[i] < 128
}

/// Appends the ASCII bytes of `text`.
fn push_all(out: &mut Vec<u8>, text: &[u8])
    requires
        is_ascii_bytes(text@),
    ensures
        final(out)@ == old(out)@ + text@,
        is_ascii_bytes(old(out)@) ==> is_ascii_bytes(final(out)@),
{
    let mut i: usize = 0;
    while i < text.len()
        invariant
            i <= text.len(),
            out@ == old(out)@ + text@.subrange(0, i as int),
        decreases text.len() - i,
    {
        out.push(text[i]);
        i = i + 1;
        assert(out@ =~= old(out)@ + text@.subrange(0, i as int));
    }
    assert(text@.subrange(0, i as int) =~= text@);
    assert(is_ascii_bytes(old(out)@) ==> is_ascii_bytes(out@)) by {
        if is_ascii_bytes(old(out)@) {
            assert forall|j: int| 0 <= j < out@.len() implies out@[j] < 128 by {
                if j >= old(out)@.len() {
                    assert(out@[j] == text@[j - old(out)@.len()]);
                }
            }
        }
    }
}

/// The ASCII code of the upper-case hexadecimal digit `d`.
fn hex_digit_code(d: u8) -> (c: u8)
    requires
        d < 16,
    ensures
        c == hex_digit(d as int),
        c < 128,
{
    if d < 10 {
        d + 48
    } else {
        d + 55
    }
}

/// Appends a byte as two upper-case hexadecimal digits.
fn push_hex_byte(out: &mut Vec<u8>, v: u8)
    ensures
        final(out)@ == old(out)@ + hex_byte(v),
        is_ascii_bytes(old(out)@) ==> is_ascii_bytes(final(out)@),
{
    proof {
        lemma_shift_right(v);
    }
    let high = hex_digit_code(v / 16);
    let low = hex_digit_code(v & 0x0F);
    push_all(out, &[high, low]);
}

/// Appends a 16-bit value as four upper-case hexadecimal digits.
fn push_hex_word(out: &mut Vec<u8>, v: u16)
    ensures
        final(out)@ == old(out)@ + hex_word(v),
        is_ascii_bytes(old(out)@) ==> is_ascii_bytes(final(out)@),
{
    proof {
        lemma_split_word(v);
    }
    push_hex_byte(out, (v >> 8u16) as u8);
    push_hex_byte(out, (v & 0x1FFu16) as u8);
    assert(final(out)@ =~= old(out)@ + hex_word(v));
}

/// Appends the flags as `flags_text` gives them.
fn push_flags(out: &mut Vec<u8>, flags: &FlagsRegister, detailed_display_flags: bool)
    ensures
        final(out)@ == old(out)@ + flags_text(*flags, detailed_display_flags),
        is_ascii_bytes(old(out)@) ==> is_ascii_bytes(final(out)@),
{
    if detailed_display_flags {
        let c = if flags.c { 'C' as u8 } else { '-' as u8 };
        let h = if flags.h { 'H' as u8 } else { '-' as u8 };
        let n = if flags.n { 'N' as u8 } else { '-' as u8 };
        let z = if flags.z { 'Z' as u8 } else { '-' as u8 };
        push_all(out, &[c, h, n, z]);
    } else {
        push_hex_byte(out, flags.get_flags_as_u8());
    }
}

/// The log line of the CPU state as ASCII bytes (see `spec_log_line`).
pub fn registers_state_bytes(cpu: &Cpu, detailed_display_flags: bool) -> (line: Vec<u8>)
    ensures
        line@ == spec_log_line(*cpu, detailed_display_flags),
        is_ascii_bytes(line@),
{
    let pc = cpu.registers.pc;
    let pc_mem_0 = cpu.memory_bus.read_byte(pc);
    let pc_mem_1 = cpu.memory_bus.read_byte(pc.wrapping_add(1));
    let pc_mem_2 = cpu.memory_bus.read_byte(pc.wrapping_add(2));
    let pc_mem_3 = cpu.memory_bus.read_byte(pc.wrapping_add(3));

    let mut line: Vec<u8> = Vec::new();
    assert(is_ascii_bytes(line@));
    push_all(&mut line, &['A' as u8, ':' as u8]);
    assert(line@ =~= seq!['A' as u8, ':' as u8]);
    push_hex_byte(&mut line, cpu.registers.a);
    push_all(&mut line, &[' ' as u8, 'F' as u8, ':' as u8]);
    push_flags(&mut line, &cpu.registers.flags, detailed_display_flags);
    push_all(&mut line, &[' ' as u8, 'B' as u8, ':' as u8]);
    push_hex_byte(&mut line, cpu.registers.b);
    push_all(&mut line, &[' ' as u8, 'C' as u8, ':' as u8]);
    push_hex_byte(&mut line, cpu.registers.c);
    push_all(&mut line, &[' ' as u8, 'D' as u8, ':' as u8]);
    push_hex_byte(&mut line, cpu.registers.d);
    push_all(&mut line, &[' ' as u8, 'E' as u8, ':' as u8]);
    push_hex_byte(&mut line, cpu.registers.e);
    push_all(&mut line, &[' ' as u8, 'H' as u8, ':' as u8]);
    push_hex_byte(&mut line, cpu.registers.h);
    push_all(&mut line, &[' ' as u8, 'L' as u8, ':' as u8]);
    push_hex_byte(&mut line, cpu.registers.l);
    push_all(&mut line, &[' ' as u8, 'S' as u8, 'P' as u8, ':' as u8]);
    push_hex_word(&mut line, cpu.registers.sp);
    push_all(&mut line, &[' ' as u8, 'P' as u8, 'C' as u8, ':' as u8]);
    push_hex_word(&mut line, pc);
    push_all(
        &mut line,
        &[' ' as u8, 'P' as u8, 'C' as u8, 'M' as u8, 'E' as u8, 'M' as u8, ':' as u8],
    );
    push_hex_byte(&mut line, pc_mem_0);
    push_all(&mut line, &[',' as u8]);
    push_hex_byte(&mut line, pc_mem_1);
    push_all(&mut line, &[',' as u8]);
    push_hex_byte(&mut line, pc_mem_2);
    push_all(&mut line, &[',' as u8]);
    push_hex_byte(&mut line, pc_mem_3);
    push_all(&mut line, &['\n' as u8]);
    line
}

/// The log line of the CPU state:
/// `A:00 F:11 B:22 C:33 D:44 E:55 H:66 L:77 SP:8888 PC:9999 PCMEM:AA,BB,CC,DD` and a
/// newline. With `detailed_display_flags` the flags read as letters (`CHNZ`, '-' for a reset
/// flag) instead of a hexadecimal byte.
pub fn get_registers_state_for_log(cpu: &Cpu, detailed_display_flags: bool) -> (line: String)
    ensures
        line@ == spec_log_line(*cpu, detailed_display_flags).map_values(|b: u8| b as char),
{
    let bytes = registers_state_bytes(cpu, detailed_display_flags);
    match string_from_utf8(bytes) {
        Ok(line) => line,
        Err(_) => String::new(),
    }
}

} // verus!
