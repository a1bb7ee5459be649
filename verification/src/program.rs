//! The whole program: how the header, the runtime, the translated
//! instructions and the embedded ROM follow one another, and what a
//! compilation returns.

use crate::chip8::{lemma_scan_shape, scan, MAX_ROM_LEN, ROM_BASE};
use crate::error::CompileError;
use crate::image::{
    grows, lemma_all_defined, lemma_def, lemma_grows_linkable, lemma_grows_refs_inside,
    lemma_grows_same_input, lemma_grows_trans, lemma_resolve_keeps, Asm, CODE_START, IMAGE_SIZE,
};
use crate::label::{Label, Local, Routine};
use crate::runtime::{init, is_runtime_label, lemma_init, lemma_runtime, runtime};
use crate::templates::{bad_branch, lemma_translate, local_to, translate};
use vstd::prelude::*;

verus! {

/// The CHIP-8 addresses that hold an instruction of the ROM's stream: the
/// even addresses from `0x200` on, one for each instruction.
pub open spec fn scanned_addrs(rom: Seq<u8>) -> Set<u16> {
    Set::new(
        |a: u16| a >= ROM_BASE && (a - ROM_BASE) % 2 == 0 && (a - ROM_BASE) / 2 < scan(rom).len(),
    )
}

/// The boot header: at offset 0 a jump to the start of the code, then
/// zeroes up to there.
pub open spec fn header(s: Asm) -> Asm {
    s
        /* JP CODE_START          */ .byte(0xC3).word(CODE_START)
        .pad_to(CODE_START as int)
}

/// The entry of the translated program: a jump to the first instruction,
/// or to `halt` where there is none.
pub open spec fn entry(s: Asm, any: bool) -> Asm {
    s.def(Label::Routine(Routine::Main)).byte(0xC3).refer(
        if any {
            Label::Chip8(ROM_BASE)
        } else {
            Label::Routine(Routine::Halt)
        },
    )
}

/// The state once the boot header is emitted.
pub open spec fn boot(rom: Seq<u8>) -> Asm {
    header(Asm::start(rom, scanned_addrs(rom)))
}

/// Everything that stands before the first translated instruction.
pub open spec fn prologue(rom: Seq<u8>) -> Asm {
    entry(runtime(init(boot(rom))), scan(rom).len() > 0)
}

/// The state once the first `k` instructions of the stream are translated:
/// each has its `c8_` label defined where its translation starts.
pub open spec fn emitted(rom: Seq<u8>, k: int) -> Asm
    decreases k,
{
    if k <= 0 {
        prologue(rom)
    } else {
        let inst = scan(rom)[k - 1];
        translate(emitted(rom, k - 1).def(Label::Chip8(inst.addr)), inst)
    }
}

/// The labels that are defined while the instructions below CHIP-8 address
/// `limit` have been translated and the halt loop has not: every routine
/// but `halt` and `chip8_rom_data`, the label of every scanned address
/// below `limit`, and no local label of another address.
pub open spec fn labels_at(s: Asm, limit: int) -> bool {
    &&& forall|l: Label| #[trigger]
        s.labels.contains_key(l) ==> match l {
            Label::Routine(r) => r != Routine::Halt && r != Routine::Chip8RomData,
            Label::Chip8(a) => a < limit,
            Label::Local(_, a) => a < limit,
        }
    &&& forall|l: Label|
        (match l {
            Label::Routine(r) => r != Routine::Halt && r != Routine::Chip8RomData,
            Label::Chip8(a) => s.scanned.contains(a) && a < limit,
            Label::Local(_, _) => false,
        }) ==> #[trigger] s.labels.contains_key(l)
}

/// What follows the last translated instruction: the halt loop, then the
/// ROM itself, byte for byte.
pub open spec fn epilogue(s: Asm) -> Asm {
    s
        /* halt:                  */ .def(Label::Routine(Routine::Halt))
        /* HALT                   */ .byte(0x76)
        /* JP halt                */ .byte(0xC3).refer(Label::Routine(Routine::Halt))
        /* chip8_rom_data:        */ .def(Label::Routine(Routine::Chip8RomData))
        .bytes(s.rom)
}

/// The whole program before its references are patched.
pub open spec fn linked(rom: Seq<u8>) -> Asm {
    epilogue(emitted(rom, scan(rom).len() as int))
}

/// The target of the first `JP` or `CALL`, from the `k`-th instruction on,
/// that goes to an address without a scanned instruction.
pub open spec fn first_bad_branch(rom: Seq<u8>, k: int) -> Option<u16>
    decreases scan(rom).len() - k,
{
    if k < 0 || k >= scan(rom).len() {
        None
    } else if bad_branch(scanned_addrs(rom), scan(rom)[k]) {
        Some(scan(rom)[k].spec_nnn())
    } else {
        first_bad_branch(rom, k + 1)
    }
}

/// What compiling a ROM returns.
///
/// An empty ROM is refused, and so is one that is larger than the image,
/// since the image holds a copy of it. A `JP` or `CALL` to an address
/// without a scanned instruction is an error; the first one in the stream
/// is reported. Otherwise the program is laid out, and the result is its
/// image if it fits.
pub open spec fn compile_result(rom: Seq<u8>) -> Result<Seq<u8>, CompileError> {
    if rom.len() == 0 {
        Err(CompileError::EmptyInput)
    } else if rom.len() > IMAGE_SIZE {
        Err(CompileError::ImageTooLarge)
    } else if let Some(target) = first_bad_branch(rom, 0) {
        Err(CompileError::UnknownBranchTarget(target))
    } else if linked(rom).code.len() > IMAGE_SIZE {
        Err(CompileError::ImageTooLarge)
    } else {
        Ok(linked(rom).image())
    }
}

/// The image starts with the boot header: the jump to the start of the
/// code, low byte of the target first, then zeroes up to there.
pub open spec fn boot_header(image: Seq<u8>) -> bool {
    &&& image.len() >= CODE_START
    &&& image[0] == 0xC3
    &&& image[1] == 0x00
    &&& image[2] == 0x01
    &&& forall|i: int| 3 <= i < CODE_START ==> image[i] == 0
}

/// In state `s` the copy of the ROM is the last thing emitted: it starts
/// at `chip8_rom_data`, runs to the end of the code, and every pending
/// reference lies before it.
pub open spec fn rom_at_end(s: Asm) -> bool {
    let data = Label::Routine(Routine::Chip8RomData);
    &&& s.labels.contains_key(data)
    &&& 0 <= s.labels[data]
    &&& s.labels[data] + s.rom.len() == s.code.len()
    &&& forall|i: int| 0 <= i < s.rom.len() ==> s.code[s.labels[data] + i] == s.rom[i]
    &&& forall|j: int| 0 <= j < s.refs.len() ==> (#[trigger] s.refs[j]).0 + 2 <= s.labels[data]
}

/// The image holds the ROM, byte for byte, from the offset of
/// `chip8_rom_data` on.
pub open spec fn rom_embedded(rom: Seq<u8>, image: Seq<u8>) -> bool {
    let data = Label::Routine(Routine::Chip8RomData);
    &&& linked(rom).labels.contains_key(data)
    &&& 0 <= linked(rom).labels[data]
    &&& linked(rom).labels[data] + rom.len() <= image.len()
    &&& forall|i: int| 0 <= i < rom.len() ==> image[linked(rom).labels[data] + i] == rom[i]
}

/// Where the translation of the `k`-th instruction starts.
pub open spec fn translation_start(rom: Seq<u8>, k: int) -> int {
    emitted(rom, k).code.len() as int
}

/// In state `s`, the `j`-th instruction has its label at the start of its
/// translation, the translation is in the code, its first byte is as it
/// was emitted, and no pending reference covers that byte.
pub open spec fn marked(s: Asm, rom: Seq<u8>, j: int) -> bool {
    let at = translation_start(rom, j);
    let label = Label::Chip8(scan(rom)[j].addr);
    &&& s.labels.contains_key(label)
    &&& s.labels[label] == at
    &&& at <= translation_start(rom, j + 1) <= s.code.len()
    &&& at < translation_start(rom, j + 1) ==> s.code[at] == emitted(rom, j + 1).code[at]
    &&& forall|r: int|
        0 <= r < s.refs.len() ==> (#[trigger] s.refs[r]).0 + 2 <= at || s.refs[r].0 > at
}

/// In state `s`, each of the first `i` instructions has its label at the
/// start of its translation.
pub open spec fn marks(s: Asm, rom: Seq<u8>, i: int) -> bool {
    forall|j: int| 0 <= j < i ==> #[trigger] marked(s, rom, j)
}

/// In the finished image, the label of the `k`-th instruction points at
/// the start of the instruction's translation, and where the translation
/// is not empty the image holds its first byte there.
pub open spec fn marked_in_image(rom: Seq<u8>, image: Seq<u8>, k: int) -> bool {
    let at = translation_start(rom, k);
    let label = Label::Chip8(scan(rom)[k].addr);
    &&& linked(rom).labels.contains_key(label)
    &&& linked(rom).labels[label] == at
    &&& at < translation_start(rom, k + 1) ==> at < image.len() && image[at] == emitted(
        rom,
        k + 1,
    ).code[at]
}

/// In the finished image, the label of every instruction of the stream
/// points at the start of the instruction's translation, and where the
/// translation is not empty the image holds its first byte there.
pub open spec fn labels_mark_translations(rom: Seq<u8>, image: Seq<u8>) -> bool {
    forall|k: int| 0 <= k < scan(rom).len() ==> #[trigger] marked_in_image(rom, image, k)
}

/// What holds of the labels of translated instructions keeps holding as
/// the compilation goes on.
pub proof fn lemma_marks_grow(s: Asm, t: Asm, rom: Seq<u8>, i: int)
    requires
        grows(s, t),
        marks(s, rom, i),
    ensures
        marks(t, rom, i),
{
    reveal(grows);
    assert forall|j: int| 0 <= j < i implies #[trigger] marked(t, rom, j) by {
        assert(marked(s, rom, j));
        let at = translation_start(rom, j);
        let label = Label::Chip8(scan(rom)[j].addr);
        assert(s.labels.contains_key(label));
        if at < translation_start(rom, j + 1) {
            assert(t.code[at] == s.code[at]);
        }
        assert forall|r: int| 0 <= r < t.refs.len() implies (#[trigger] t.refs[r]).0 + 2 <= at
            || t.refs[r].0 > at by {
            if r < s.refs.len() {
                assert(t.refs[r] == s.refs[r]);
            }
        }
    }
}

/// Translating the `i`-th instruction behind its label adds that label to
/// those that mark their translation.
pub proof fn lemma_marks_step(before: Asm, defined: Asm, now: Asm, rom: Seq<u8>, i: int)
    requires
        rom.len() <= MAX_ROM_LEN,
        0 <= i < scan(rom).len(),
        before == emitted(rom, i),
        defined == before.def(Label::Chip8(scan(rom)[i].addr)),
        now == emitted(rom, i + 1),
        grows(defined, now),
        marks(before, rom, i),
        before.refs_inside(),
    ensures
        marks(now, rom, i + 1),
{
    lemma_scan_shape(rom);
    let label = Label::Chip8(scan(rom)[i].addr);
    assert forall|j: int| 0 <= j < i implies #[trigger] marked(defined, rom, j) by {
        assert(marked(before, rom, j));
        assert(scan(rom)[j].addr != scan(rom)[i].addr);
    }
    lemma_marks_grow(defined, now, rom, i);
    assert(marked(now, rom, i)) by {
        reveal(grows);
        let at = translation_start(rom, i);
        assert(defined.labels.contains_key(label));
        assert forall|r: int| 0 <= r < now.refs.len() implies (#[trigger] now.refs[r]).0 + 2 <= at
            || now.refs[r].0 > at by {
            if r < defined.refs.len() {
                assert(now.refs[r] == defined.refs[r]);
                assert(before.refs[r].0 + 2 <= before.code.len());
            }
        }
    }
}

/// Once the references are patched, every label that marked its
/// translation in the code marks it in the image.
pub proof fn lemma_marks_image(rom: Seq<u8>)
    requires
        marks(linked(rom), rom, scan(rom).len() as int),
        linked(rom).refs_inside(),
        linked(rom).code.len() <= IMAGE_SIZE,
    ensures
        labels_mark_translations(rom, linked(rom).image()),
{
    let whole = linked(rom);
    let image = whole.image();
    assert forall|k: int| 0 <= k < scan(rom).len() implies #[trigger] marked_in_image(
        rom,
        image,
        k,
    ) by {
        assert(marked(whole, rom, k));
        let at = translation_start(rom, k);
        if at < translation_start(rom, k + 1) {
            assert forall|r: int| 0 <= r < whole.refs.len() implies (#[trigger] whole.refs[r]).0
                != at && whole.refs[r].0 + 1 != at by {}
            lemma_resolve_keeps(whole, whole.refs.len() as int, at);
        }
    }
}

/// The boot header continues the state it is given, and touches neither
/// labels nor references. At the start of the image it fills the bytes
/// below the code.
pub proof fn lemma_header(s: Asm)
    ensures
        grows(s, header(s)),
        header(s).labels == s.labels,
        header(s).refs == s.refs,
        s.code.len() == 0 ==> header(s).code.len() == CODE_START && boot_header(header(s).code),
{
    reveal(grows);
}

/// The program entry continues the state it is given, and defines `main`.
pub proof fn lemma_entry(s: Asm, any: bool)
    requires
        s.fresh(Label::Routine(Routine::Main)),
        any ==> s.scanned.contains(ROM_BASE),
    ensures
        grows(s, entry(s, any)),
        forall|l: Label|
            #![trigger entry(s, any).labels.contains_key(l)]
            entry(s, any).labels.contains_key(l) <==> s.labels.contains_key(l) || l
                == Label::Routine(Routine::Main),
{
    reveal(grows);
}

/// The halt loop and the copy of the ROM continue the state they are
/// given; they define `halt` and `chip8_rom_data`, and leave the copy of
/// the ROM at the end of the code.
pub proof fn lemma_epilogue(s: Asm)
    requires
        s.fresh(Label::Routine(Routine::Halt)),
        s.fresh(Label::Routine(Routine::Chip8RomData)),
        s.refs_inside(),
    ensures
        grows(s, epilogue(s)),
        forall|l: Label|
            #![trigger epilogue(s).labels.contains_key(l)]
            epilogue(s).labels.contains_key(l) <==> s.labels.contains_key(l) || l
                == Label::Routine(Routine::Halt) || l == Label::Routine(Routine::Chip8RomData),
        rom_at_end(epilogue(s)),
{
    reveal(grows);
    let t = epilogue(s);
    assert forall|j: int| 0 <= j < t.refs.len() implies (#[trigger] t.refs[j]).0 + 2
        <= t.labels[Label::Routine(Routine::Chip8RomData)] by {
        if j < s.refs.len() {
            assert(t.refs[j] == s.refs[j]);
        }
    }
}

/// What holds of the state at every point between two instructions of a
/// compilation of `rom`, when the first `k` are translated: it is a
/// continuation of the boot header, its references lie inside the code
/// and can all be linked, the labels defined are those of the runtime and
/// of the instructions translated, and each of these marks its
/// translation.
pub open spec fn sound(s: Asm, rom: Seq<u8>, k: int) -> bool {
    &&& s.rom == rom
    &&& s.scanned == scanned_addrs(rom)
    &&& s.refs_inside()
    &&& s.linkable()
    &&& grows(boot(rom), s)
    &&& labels_at(s, ROM_BASE + 2 * k)
    &&& marks(s, rom, k)
}

/// The state before the first translated instruction is sound.
pub proof fn lemma_prologue(rom: Seq<u8>)
    ensures
        sound(prologue(rom), rom, 0),
        boot(rom).code.len() == CODE_START,
        boot_header(boot(rom).code),
        boot(rom).refs.len() == 0,
{
    let start = Asm::start(rom, scanned_addrs(rom));
    let booted = boot(rom);
    let inited = init(booted);
    let ready = runtime(inited);
    let s = prologue(rom);
    let any = scan(rom).len() > 0;
    lemma_header(start);
    lemma_grows_same_input(start, booted);
    lemma_init(booted);
    lemma_grows_same_input(booted, inited);
    assert forall|l: Label| is_runtime_label(l) implies !(#[trigger] inited.labels.contains_key(
        l,
    )) by {}
    lemma_runtime(inited);
    lemma_grows_trans(booted, inited, ready);
    lemma_grows_same_input(booted, ready);
    assert(!is_runtime_label(Label::Routine(Routine::Main)));
    lemma_entry(ready, any);
    lemma_grows_trans(booted, ready, s);
    lemma_grows_same_input(booted, s);
    assert(booted.refs_inside());
    lemma_grows_refs_inside(booted, s);
    assert(booted.linkable());
    lemma_grows_linkable(booted, s);
    assert(labels_at(s, ROM_BASE as int)) by {
        assert forall|l: Label| #[trigger] s.labels.contains_key(l) implies (match l {
            Label::Routine(r) => r != Routine::Halt && r != Routine::Chip8RomData,
            Label::Chip8(a) => a < ROM_BASE,
            Label::Local(_, a) => a < ROM_BASE,
        }) by {
            assert(ready.labels.contains_key(l) || l == Label::Routine(Routine::Main));
            assert(inited.labels.contains_key(l) || is_runtime_label(l) || l == Label::Routine(
                Routine::Main,
            ));
        }
        assert forall|l: Label|
            (match l {
                Label::Routine(r) => r != Routine::Halt && r != Routine::Chip8RomData,
                Label::Chip8(a) => s.scanned.contains(a) && a < ROM_BASE,
                Label::Local(_, _) => false,
            }) implies #[trigger] s.labels.contains_key(l) by {
            match l {
                Label::Routine(r) => {
                    assert(l == Label::Routine(Routine::Init) || l == Label::Routine(
                        Routine::InitClear,
                    ) || is_runtime_label(l) || l == Label::Routine(Routine::Main));
                    if l == Label::Routine(Routine::Init) || l == Label::Routine(
                        Routine::InitClear,
                    ) {
                        assert(inited.labels.contains_key(l));
                        assert(ready.labels.contains_key(l));
                    } else if is_runtime_label(l) {
                        assert(ready.labels.contains_key(l));
                    }
                },
                _ => {},
            }
        }
    }
}

/// Where no branch from the `k`-th instruction on is bad, none of the
/// instructions from there on is a bad branch.
pub proof fn lemma_no_bad_branch(rom: Seq<u8>, k: int, j: int)
    requires
        0 <= k <= j < scan(rom).len(),
        first_bad_branch(rom, k) is None,
    ensures
        !bad_branch(scanned_addrs(rom), scan(rom)[j]),
    decreases j - k,
{
    if k < j {
        lemma_no_bad_branch(rom, k + 1, j);
    }
}

/// The state after `k` instructions is sound, where none of them is a bad
/// branch.
pub proof fn lemma_emitted(rom: Seq<u8>, k: int)
    requires
        rom.len() <= MAX_ROM_LEN,
        0 <= k <= scan(rom).len(),
        forall|j: int| 0 <= j < k ==> !bad_branch(scanned_addrs(rom), #[trigger] scan(rom)[j]),
    ensures
        sound(emitted(rom, k), rom, k),
    decreases k,
{
    if k == 0 {
        lemma_prologue(rom);
    } else {
        lemma_emitted(rom, k - 1);
        lemma_scan_shape(rom);
        let i = k - 1;
        let inst = scan(rom)[i];
        let before = emitted(rom, i);
        let defined = before.def(Label::Chip8(inst.addr));
        let now = emitted(rom, k);
        assert(inst.addr == ROM_BASE + 2 * i);
        assert(before.fresh(Label::Chip8(inst.addr)));
        lemma_def(before, Label::Chip8(inst.addr));
        assert forall|kind: Local| defined.fresh(Label::Local(kind, inst.addr)) by {
            assert(!before.labels.contains_key(Label::Local(kind, inst.addr)));
        }
        lemma_grows_same_input(before, defined);
        lemma_translate(defined, inst);
        lemma_marks_step(before, defined, now, rom, i);
        lemma_grows_trans(before, defined, now);
        lemma_grows_trans(boot(rom), before, now);
        lemma_grows_same_input(before, now);
        lemma_grows_refs_inside(before, now);
        lemma_grows_linkable(before, now);
        assert(labels_at(now, ROM_BASE + 2 * k)) by {
            assert forall|l: Label| #[trigger] now.labels.contains_key(l) implies (match l {
                Label::Routine(r) => r != Routine::Halt && r != Routine::Chip8RomData,
                Label::Chip8(a) => a < ROM_BASE + 2 * k,
                Label::Local(_, a) => a < ROM_BASE + 2 * k,
            }) by {
                if !local_to(l, inst.addr) {
                    assert(defined.labels.contains_key(l));
                    if l != Label::Chip8(inst.addr) {
                        assert(before.labels.contains_key(l));
                    }
                }
            }
            assert forall|l: Label|
                (match l {
                    Label::Routine(r) => r != Routine::Halt && r != Routine::Chip8RomData,
                    Label::Chip8(a) => now.scanned.contains(a) && a < ROM_BASE + 2 * k,
                    Label::Local(_, _) => false,
                }) implies #[trigger] now.labels.contains_key(l) by {
                reveal(grows);
                if l != Label::Chip8(inst.addr) {
                    assert(before.labels.contains_key(l));
                }
                assert(defined.labels.contains_key(l));
            }
        }
    }
}

/// The whole program of a ROM without a bad branch: it continues the boot
/// header, every reference in it finds its label, every instruction's
/// label marks its translation, and the copy of the ROM ends the code.
pub proof fn lemma_linked(rom: Seq<u8>)
    requires
        rom.len() <= MAX_ROM_LEN,
        first_bad_branch(rom, 0) is None,
    ensures
        linked(rom).rom == rom,
        linked(rom).refs_inside(),
        linked(rom).undefined_from(0) is None,
        grows(boot(rom), linked(rom)),
        marks(linked(rom), rom, scan(rom).len() as int),
        rom_at_end(linked(rom)),
{
    let n = scan(rom).len() as int;
    assert forall|j: int| 0 <= j < n implies !bad_branch(
        scanned_addrs(rom),
        #[trigger] scan(rom)[j],
    ) by {
        lemma_no_bad_branch(rom, 0, j);
    }
    lemma_emitted(rom, n);
    lemma_scan_shape(rom);
    let translated = emitted(rom, n);
    let whole = linked(rom);
    lemma_epilogue(translated);
    lemma_grows_trans(boot(rom), translated, whole);
    lemma_grows_same_input(translated, whole);
    lemma_grows_refs_inside(translated, whole);
    lemma_grows_linkable(translated, whole);
    lemma_marks_grow(translated, whole, rom, n);
    assert forall|l: Label| whole.ref_ok(l) implies #[trigger] whole.labels.contains_key(l) by {
        match l {
            Label::Routine(r) => {
                if r != Routine::Halt && r != Routine::Chip8RomData {
                    assert(translated.labels.contains_key(l));
                }
            },
            Label::Chip8(a) => {
                assert(translated.labels.contains_key(l));
            },
            Label::Local(_, _) => {},
        }
    }
    lemma_all_defined(whole, 0);
}

/// An image that comes out of a compilation has the full image size.
pub proof fn lemma_image_size(rom: Seq<u8>)
    ensures
        compile_result(rom) matches Ok(image) ==> image.len() == IMAGE_SIZE,
{
}

/// A compilation fails in three ways only: on an empty ROM, on a branch to
/// an address without an instruction, and on a program that does not fit.
/// It never reports an undefined or a duplicate label.
pub proof fn lemma_failures(rom: Seq<u8>)
    ensures
        compile_result(rom) matches Err(e) ==> e == CompileError::EmptyInput || e
            == CompileError::ImageTooLarge || e matches CompileError::UnknownBranchTarget(_),
        compile_result(rom) == Err::<Seq<u8>, CompileError>(CompileError::EmptyInput) <==> rom.len()
            == 0,
{
}

/// In every program that compiles, each reference finds its label.
pub proof fn lemma_references_resolve(rom: Seq<u8>)
    ensures
        compile_result(rom) is Ok ==> linked(rom).undefined_from(0) is None,
{
    if compile_result(rom) is Ok {
        lemma_linked(rom);
    }
}

/// Every image starts with the boot header: byte 0 is `0xC3`, bytes 1 and 2
/// are `0x00` and `0x01`, and zeroes follow up to the start of the code.
pub proof fn lemma_boot_header(rom: Seq<u8>)
    ensures
        compile_result(rom) matches Ok(image) ==> boot_header(image),
{
    if compile_result(rom) is Ok {
        lemma_linked(rom);
        lemma_prologue(rom);
        let whole = linked(rom);
        let image = whole.image();
        reveal(grows);
        assert forall|i: int| 0 <= i < CODE_START implies image[i] == boot(rom).code[i] by {
            lemma_resolve_keeps(whole, whole.refs.len() as int, i);
        }
    }
}

/// Every image holds the ROM it was compiled from, byte for byte, at
/// `chip8_rom_data`.
pub proof fn lemma_rom_embedded(rom: Seq<u8>)
    ensures
        compile_result(rom) matches Ok(image) ==> rom_embedded(rom, image),
{
    if compile_result(rom) is Ok {
        lemma_linked(rom);
        let whole = linked(rom);
        let image = whole.image();
        let data = whole.labels[Label::Routine(Routine::Chip8RomData)];
        assert forall|i: int| 0 <= i < rom.len() implies image[data + i] == rom[i] by {
            lemma_resolve_keeps(whole, whole.refs.len() as int, data + i);
        }
    }
}

/// In every image, the label of each instruction of the stream points at
/// the start of the instruction's translation, and the image holds the
/// first byte of the translation there.
pub proof fn lemma_labels_mark_translations(rom: Seq<u8>)
    ensures
        compile_result(rom) matches Ok(image) ==> labels_mark_translations(rom, image),
{
    if compile_result(rom) is Ok {
        lemma_linked(rom);
        lemma_marks_image(rom);
    }
}

} // verus!
