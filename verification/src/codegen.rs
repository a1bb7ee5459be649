//! The compilation context and its emission primitives.

use crate::chip8::{lemma_scan_shape, parse, scan, ROM_BASE};
use crate::error::CompileError;
use crate::image::{patch, Asm, CODE_START, IMAGE_SIZE};
use crate::label::{lemma_key_injective, Label, Local, Routine};
use crate::program::{
    boot, boot_header, compile_result, emitted, entry, epilogue, first_bad_branch, header,
    labels_mark_translations, lemma_boot_header, lemma_emitted, lemma_header,
    lemma_labels_mark_translations, lemma_linked, lemma_rom_embedded, linked, rom_embedded,
    scanned_addrs,
};
use crate::runtime::{init, is_runtime_label, lemma_init, lemma_runtime};
use crate::templates::bad_branch;
use std::collections::HashMap;
use vstd::prelude::*;
use vstd::slice::slice_to_vec;

verus! {

/// A pending reference: the two bytes at `at` are to hold the offset of
/// `target`.
#[derive(Debug, Clone, Copy)]
pub struct Fixup {
    pub at: usize,
    pub target: Label,
}

/// The single owner of a compilation's state: the image buffer, the label
/// table, the pending references, the set of scanned CHIP-8 addresses and
/// a copy of the ROM.
pub struct Compiler {
    code: Vec<u8>,
    labels: HashMap<u64, usize>,
    forward_refs: Vec<Fixup>,
    chip8_labels: HashMap<u16, Label>,
    chip8_rom: Vec<u8>,
}

impl View for Compiler {
    type V = Asm;

    closed spec fn view(&self) -> Asm {
        Asm {
            code: self.code@,
            labels: Map::new(
                |l: Label| self.labels@.contains_key(l.spec_key()),
                |l: Label| self.labels@[l.spec_key()] as int,
            ),
            refs: Seq::new(
                self.forward_refs@.len(),
                |j: int| (self.forward_refs@[j].at as int, self.forward_refs@[j].target),
            ),
            scanned: self.chip8_labels@.dom(),
            rom: self.chip8_rom@,
        }
    }
}

impl Compiler {
    /// The representation is sound: every pending reference lies inside
    /// the code, and the address table maps each address to its own label.
    pub closed spec fn wf(&self) -> bool {
        &&& forall|j: int|
            0 <= j < self.forward_refs@.len() ==> (#[trigger] self.forward_refs@[j]).at + 2
                <= self.code@.len()
        &&& forall|a: u16| #[trigger]
            self.chip8_labels@.contains_key(a) ==> self.chip8_labels@[a] == Label::Chip8(a)
    }

    /// A context with nothing emitted.
    pub fn new() -> (r: Self)
        ensures
            r.wf(),
            r@ == Asm::start(Seq::empty(), Set::empty()),
    {
        let r = Self {
            code: Vec::new(),
            labels: HashMap::new(),
            forward_refs: Vec::new(),
            chip8_labels: HashMap::new(),
            chip8_rom: Vec::new(),
        };
        assert(r@.labels =~= Map::empty());
        assert(r@.refs =~= Seq::empty());
        assert(r@.scanned =~= Set::empty());
        r
    }

    /// The current emission offset: the number of bytes emitted so far.
    pub fn offset(&self) -> (r: usize)
        ensures
            r == self@.here(),
    {
        self.code.len()
    }

    /// The offset that `name` is defined as, if it is defined.
    pub fn lookup(&self, name: Label) -> (r: Option<usize>)
        ensures
            match r {
                Some(at) => self@.labels.contains_key(name) && self@.labels[name] == at,
                None => !self@.labels.contains_key(name),
            },
    {
        broadcast use vstd::std_specs::hash::group_hash_axioms;

        let key = name.key();
        match self.labels.get(&key) {
            Some(at) => Some(*at),
            None => None,
        }
    }

    /// A copy of the bytes emitted so far.
    pub fn bytes(&self) -> (r: Vec<u8>)
        ensures
            r@ == self@.code,
    {
        self.code.clone()
    }

    /// Append one byte to the image.
    pub fn emit(&mut self, byte: u8)
        requires
            old(self).wf(),
        ensures
            final(self).wf(),
            final(self)@ == old(self)@.byte(byte),
    {
        self.code.push(byte);
        assert(self@.refs =~= old(self)@.refs);
        assert(self@.labels =~= old(self)@.labels);
    }

    /// Append a 16-bit word to the image, low byte first.
    pub fn emit16(&mut self, word: u16)
        requires
            old(self).wf(),
        ensures
            final(self).wf(),
            final(self)@ == old(self)@.word(word),
    {
        assert(word & 0xFF == word % 256 && word >> 8 == word / 256) by (bit_vector);
        self.emit((word & 0xFF) as u8);
        self.emit((word >> 8) as u8);
    }

    /// Define `name` as the current emission offset. A name can be defined
    /// once only.
    pub fn label(&mut self, name: Label) -> (r: Result<(), CompileError>)
        requires
            old(self).wf(),
        ensures
            final(self).wf(),
            match r {
                Ok(()) => !old(self)@.labels.contains_key(name) && final(self)@ == old(self)@.def(
                    name,
                ),
                Err(e) => old(self)@.labels.contains_key(name) && e == CompileError::DuplicateLabel(
                    name,
                ) && final(self)@ == old(self)@,
            },
    {
        broadcast use vstd::std_specs::hash::group_hash_axioms;

        let key = name.key();
        if self.labels.contains_key(&key) {
            return Err(CompileError::DuplicateLabel(name));
        }
        let here = self.code.len();
        self.labels.insert(key, here);
        proof {
            assert forall|l: Label|
                self@.labels.contains_key(l) == old(self)@.def(name).labels.contains_key(l) by {
                if l.spec_key() == key {
                    lemma_key_injective(l, name);
                }
            }
            assert forall|l: Label| self@.labels.contains_key(l) implies self@.labels[l] == old(
                self,
            )@.def(name).labels[l] by {
                if l.spec_key() == key {
                    lemma_key_injective(l, name);
                }
            }
            assert(self@.labels =~= old(self)@.def(name).labels);
            assert(self@.refs =~= old(self)@.refs);
        }
        Ok(())
    }

    /// Append a two-byte placeholder and record that it is to be patched
    /// with the offset of `name`.
    pub fn emit_label_ref(&mut self, name: Label)
        requires
            old(self).wf(),
        ensures
            final(self).wf(),
            final(self)@ == old(self)@.refer(name),
    {
        let at = self.code.len();
        self.code.push(0);
        self.code.push(0);
        self.forward_refs.push(Fixup { at, target: name });
        assert(self@.refs =~= old(self)@.refer(name).refs);
        assert(self@.labels =~= old(self)@.labels);
    }

    /// The label of the instruction at CHIP-8 address `addr`, where one was
    /// scanned there.
    pub(crate) fn chip8_label(&self, addr: u16) -> (r: Option<Label>)
        requires
            self.wf(),
        ensures
            r == if self@.scanned.contains(addr) {
                Some(Label::Chip8(addr))
            } else {
                None
            },
    {
        broadcast use vstd::std_specs::hash::group_hash_axioms;

        match self.chip8_labels.get(&addr) {
            Some(label) => Some(*label),
            None => None,
        }
    }

    /// Patch every pending reference with the offset of its label, low byte
    /// first. Fails at the first reference whose label has no definition.
    pub fn resolve_refs(&mut self) -> (r: Result<(), CompileError>)
        requires
            old(self).wf(),
        ensures
            final(self).wf(),
            match r {
                Ok(()) => old(self)@.undefined_from(0) is None && final(self)@ == (Asm {
                    code: old(self)@.resolved(),
                    ..old(self)@
                }) && old(self)@.resolved().len() == old(self)@.code.len(),
                Err(e) => {
                    &&& old(self)@.undefined_from(0) matches Some(l) && e
                        == CompileError::UnknownLabel(l)
                    &&& final(self)@.labels == old(self)@.labels
                    &&& final(self)@.refs == old(self)@.refs
                    &&& final(self)@.code.len() == old(self)@.code.len()
                },
            },
    {
        broadcast use vstd::std_specs::hash::group_hash_axioms;

        let n = self.forward_refs.len();
        let mut j: usize = 0;
        while j < n
            invariant
                self.wf(),
                n == self.forward_refs@.len(),
                j <= n,
                self@.refs == old(self)@.refs,
                self@.labels == old(self)@.labels,
                self@.scanned == old(self)@.scanned,
                self@.rom == old(self)@.rom,
                self@.code == old(self)@.resolve(j as int),
                self@.code.len() == old(self)@.code.len(),
                old(self)@.undefined_from(0) == old(self)@.undefined_from(j as int),
            decreases n - j,
        {
            let fixup = self.forward_refs[j];
            let len = self.code.len();
            assert(self.forward_refs@[j as int].at + 2 <= len);
            assert(self@.refs[j as int] == (fixup.at as int, fixup.target));
            let key = fixup.target.key();
            let target: usize = match self.labels.get(&key) {
                Some(t) => *t,
                None => {
                    return Err(CompileError::UnknownLabel(fixup.target));
                },
            };
            assert(self@.labels[fixup.target] == target);
            assert(target & 0xFF == target % 256 && (target >> 8) & 0xFF == (target / 256) % 256)
                by (bit_vector);
            let ghost before = self@;
            self.code.set(fixup.at, (target & 0xFF) as u8);
            self.code.set(fixup.at + 1, ((target >> 8) & 0xFF) as u8);
            proof {
                assert(self@.refs =~= before.refs);
                assert(self@.labels =~= before.labels);
                assert(self@.code == patch(before.code, fixup.at as int, target as int));
            }
            j += 1;
        }
        Ok(())
    }

    /// Emit the boot header: a jump to the start of the code at offset 0,
    /// then zeroes up to there.
    pub(crate) fn generate_header(&mut self)
        requires
            old(self).wf(),
        ensures
            final(self).wf(),
            final(self)@ == header(old(self)@),
    {
        self.emit(0xC3);
        self.emit16(CODE_START);
        let ghost base = self@;
        while self.code.len() < CODE_START as usize
            invariant
                self.wf(),
                self@.labels == base.labels,
                self@.refs == base.refs,
                self@.scanned == base.scanned,
                self@.rom == base.rom,
                base.code.len() <= self@.code.len(),
                self@.code.len() <= CODE_START || self@.code.len() == base.code.len(),
                forall|i: int| 0 <= i < base.code.len() ==> self@.code[i] == base.code[i],
                forall|i: int| base.code.len() <= i < self@.code.len() ==> self@.code[i] == 0,
            decreases CODE_START - self.code.len(),
        {
            self.emit(0x00);
        }
        assert(self@.code =~= base.pad_to(CODE_START as int).code);
    }

    /// Emit the entry of the translated program: a jump to the first
    /// instruction, or to `halt` where there is none.
    pub(crate) fn generate_entry(&mut self, any: bool) -> (r: Result<(), CompileError>)
        requires
            old(self).wf(),
            old(self)@.fresh(Label::Routine(Routine::Main)),
        ensures
            final(self).wf(),
            r is Ok,
            final(self)@ == entry(old(self)@, any),
    {
        self.label(Label::Routine(Routine::Main))?;
        if any {
            self.jp_label(Label::Chip8(ROM_BASE));
        } else {
            self.jp_label(Label::Routine(Routine::Halt));
        }
        Ok(())
    }

    /// Emit what follows the last translated instruction: the halt loop and
    /// the copy of the ROM.
    pub(crate) fn generate_epilogue(&mut self) -> (r: Result<(), CompileError>)
        requires
            old(self).wf(),
            old(self)@.fresh(Label::Routine(Routine::Halt)),
            old(self)@.fresh(Label::Routine(Routine::Chip8RomData)),
        ensures
            final(self).wf(),
            r is Ok,
            final(self)@ == epilogue(old(self)@),
    {
        self.label(Label::Routine(Routine::Halt))?;
        self.halt();
        self.jp_label(Label::Routine(Routine::Halt));
        // The copy of the ROM: its first byte stands for CHIP-8 address 0x200.
        self.label(Label::Routine(Routine::Chip8RomData))?;
        let ghost base = self@;
        let n = self.chip8_rom.len();
        let mut k: usize = 0;
        while k < n
            invariant
                self.wf(),
                n == self.chip8_rom@.len(),
                k <= n,
                self@.labels == base.labels,
                self@.refs == base.refs,
                self@.scanned == base.scanned,
                self@.rom == base.rom,
                self@.code == base.code + base.rom.subrange(0, k as int),
            decreases n - k,
        {
            let byte = self.chip8_rom[k];
            self.emit(byte);
            assert(self@.code =~= base.code + base.rom.subrange(0, k + 1));
            k += 1;
        }
        assert(base.rom.subrange(0, n as int) =~= base.rom);
        Ok(())
    }

    /// Compile a CHIP-8 ROM to a Z80 ROM image.
    ///
    /// Whatever the context held before is discarded. The result is what
    /// [`compile_result`] says. An image that comes out has the full image
    /// size, starts with the boot header and holds the ROM verbatim at
    /// `chip8_rom_data`; every reference in it found its label, and the
    /// label of every instruction points at the instruction's translation.
    /// The context is left as it stood when the image was made.
    pub fn compile(&mut self, rom: &[u8]) -> (r: Result<Vec<u8>, CompileError>)
        ensures
            final(self).wf(),
            match r {
                Ok(image) => compile_result(rom@) == Ok::<Seq<u8>, CompileError>(image@),
                Err(e) => compile_result(rom@) == Err::<Seq<u8>, CompileError>(e),
            },
            r matches Ok(image) ==> {
                &&& image@.len() == IMAGE_SIZE
                &&& boot_header(image@)
                &&& rom_embedded(rom@, image@)
                &&& labels_mark_translations(rom@, image@)
                &&& linked(rom@).undefined_from(0) is None
                &&& final(self)@ == (Asm { code: linked(rom@).resolved(), ..linked(rom@) })
            },
    {
        broadcast use vstd::std_specs::hash::group_hash_axioms;

        self.code = Vec::new();
        self.labels = HashMap::new();
        self.forward_refs = Vec::new();
        self.chip8_labels = HashMap::new();
        self.chip8_rom = Vec::new();
        if rom.len() == 0 {
            return Err(CompileError::EmptyInput);
        }
        if rom.len() > IMAGE_SIZE {
            return Err(CompileError::ImageTooLarge);
        }
        // Keep the ROM: sprites are fetched from its copy in the image.
        self.chip8_rom = slice_to_vec(rom);

        let instructions = parse(rom);
        let count = instructions.len();
        proof {
            lemma_scan_shape(rom@);
        }

        // First pass: every scanned address gets its label.
        let mut i: usize = 0;
        while i < count
            invariant
                i <= count,
                count == instructions@.len(),
                instructions@ == scan(rom@),
                2 * count <= rom@.len() <= IMAGE_SIZE,
                forall|k: int|
                    0 <= k < count ==> (#[trigger] instructions@[k]).addr == ROM_BASE + 2 * k,
                self.code@.len() == 0,
                self.forward_refs@.len() == 0,
                self.labels@ == Map::<u64, usize>::empty(),
                self.chip8_rom@ == rom@,
                forall|a: u16|
                    self.chip8_labels@.contains_key(a) <==> a >= ROM_BASE && (a - ROM_BASE) % 2 == 0
                        && (a - ROM_BASE) / 2 < i,
                forall|a: u16| #[trigger]
                    self.chip8_labels@.contains_key(a) ==> self.chip8_labels@[a] == Label::Chip8(a),
            decreases count - i,
        {
            let inst = instructions[i];
            self.chip8_labels.insert(inst.addr, Label::Chip8(inst.addr));
            i += 1;
        }
        let ghost start = Asm::start(rom@, scanned_addrs(rom@));
        proof {
            assert(self@.scanned =~= scanned_addrs(rom@));
            assert(self@.labels =~= start.labels);
            assert(self@.refs =~= start.refs);
            assert(self@.code =~= start.code);
            assert(self@ == start);
        }

        // The frame: boot header, start-up code, runtime and program entry.
        self.generate_header();
        proof {
            lemma_header(start);
        }
        self.generate_init()?;
        proof {
            lemma_init(boot(rom@));
            assert forall|l: Label| is_runtime_label(l) implies !(
            #[trigger] self@.labels.contains_key(l)) by {}
        }
        self.generate_runtime()?;
        proof {
            lemma_runtime(init(boot(rom@)));
            assert(!is_runtime_label(Label::Routine(Routine::Main)));
        }
        self.generate_entry(count > 0)?;

        // Second pass: translate each instruction behind its label.
        let mut i: usize = 0;
        while i < count
            invariant
                i <= count,
                count == instructions@.len(),
                instructions@ == scan(rom@),
                rom@.len() <= IMAGE_SIZE,
                forall|k: int|
                    0 <= k < count ==> (#[trigger] instructions@[k]).addr == ROM_BASE + 2 * k,
                self.wf(),
                self@ == emitted(rom@, i as int),
                first_bad_branch(rom@, 0) == first_bad_branch(rom@, i as int),
                forall|j: int|
                    0 <= j < i ==> !bad_branch(scanned_addrs(rom@), #[trigger] scan(rom@)[j]),
            decreases count - i,
        {
            let inst = instructions[i];
            proof {
                lemma_emitted(rom@, i as int);
                assert forall|k: Local| self@.def(Label::Chip8(inst.addr)).fresh(
                    Label::Local(k, inst.addr),
                ) by {
                    assert(!self@.labels.contains_key(Label::Local(k, inst.addr)));
                }
            }
            self.label(Label::Chip8(inst.addr))?;
            match self.compile_instruction(&inst) {
                Ok(()) => {},
                Err(e) => {
                    return Err(e);
                },
            }
            i += 1;
        }

        proof {
            lemma_emitted(rom@, count as int);
            assert(first_bad_branch(rom@, 0) is None);
        }
        self.generate_epilogue()?;
        if self.code.len() > IMAGE_SIZE {
            return Err(CompileError::ImageTooLarge);
        }
        proof {
            lemma_linked(rom@);
        }
        self.resolve_refs()?;

        // The image: the code, then zeroes up to the full size.
        let mut image: Vec<u8> = Vec::new();
        let len = self.code.len();
        let mut k: usize = 0;
        while k < IMAGE_SIZE
            invariant
                k <= IMAGE_SIZE,
                len == self.code@.len(),
                image@.len() == k,
                forall|j: int|
                    0 <= j < k ==> image@[j] == if j < len {
                        self.code@[j]
                    } else {
                        0u8
                    },
            decreases IMAGE_SIZE - k,
        {
            let byte = if k < len {
                self.code[k]
            } else {
                0
            };
            image.push(byte);
            k += 1;
        }
        proof {
            assert(image@ =~= linked(rom@).image());
            lemma_boot_header(rom@);
            lemma_rom_embedded(rom@);
            lemma_labels_mark_translations(rom@);
        }
        Ok(image)
    }
}

} // verus!
