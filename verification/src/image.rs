//! The mathematical model of the assembler: what has been emitted so far,
//! and how pending references are resolved into a finished image.

use crate::label::Label;
use vstd::prelude::*;

verus! {

/// Size of the ROM image in bytes.
pub const IMAGE_SIZE: usize = 32768;

/// Offset at which generated code starts; the bytes below hold the reset
/// vector and padding.
pub const CODE_START: u16 = 0x0100;

/// Low byte of a 16-bit word.
pub open spec fn lo(w: u16) -> u8 {
    (w % 256) as u8
}

/// High byte of a 16-bit word.
pub open spec fn hi(w: u16) -> u8 {
    (w / 256) as u8
}

/// The state of one compilation.
pub ghost struct Asm {
    /// The bytes emitted so far; a pending reference holds two zero bytes.
    pub code: Seq<u8>,
    /// The offset of every label defined so far.
    pub labels: Map<Label, int>,
    /// The pending references in the order they were made: the offset of
    /// the two bytes to patch, and the label whose offset goes there.
    pub refs: Seq<(int, Label)>,
    /// The CHIP-8 addresses that hold a scanned instruction.
    pub scanned: Set<u16>,
    /// The ROM being compiled.
    pub rom: Seq<u8>,
}

/// `code` with the low 16 bits of `target` written little-endian at `at`.
pub open spec fn patch(code: Seq<u8>, at: int, target: int) -> Seq<u8> {
    code.update(at, (target % 256) as u8).update(at + 1, ((target / 256) % 256) as u8)
}

impl Asm {
    /// Nothing emitted, nothing defined, for the given ROM and scanned
    /// addresses.
    pub open spec fn start(rom: Seq<u8>, scanned: Set<u16>) -> Asm {
        Asm { code: Seq::empty(), labels: Map::empty(), refs: Seq::empty(), scanned, rom }
    }

    /// The current emission offset.
    pub open spec fn here(self) -> int {
        self.code.len() as int
    }

    /// Emit one byte.
    pub open spec fn byte(self, b: u8) -> Asm {
        Asm { code: self.code.push(b), ..self }
    }

    /// Emit a 16-bit word, low byte first.
    pub open spec fn word(self, w: u16) -> Asm {
        self.byte(lo(w)).byte(hi(w))
    }

    /// Emit a run of bytes.
    pub open spec fn bytes(self, bs: Seq<u8>) -> Asm {
        Asm { code: self.code + bs, ..self }
    }

    /// Emit zero bytes up to offset `n`; nothing where the code is already
    /// that long.
    pub open spec fn pad_to(self, n: int) -> Asm {
        if self.code.len() >= n {
            self
        } else {
            Asm { code: self.code + Seq::new((n - self.code.len()) as nat, |i: int| 0u8), ..self }
        }
    }

    /// `l` has no definition yet.
    pub open spec fn fresh(self, l: Label) -> bool {
        !self.labels.contains_key(l)
    }

    /// A reference to `l` is sure to find a definition once the whole program
    /// is emitted: a routine has one by then, an instruction's label has
    /// one if the instruction was scanned, and a local label must have one
    /// already.
    pub open spec fn ref_ok(self, l: Label) -> bool {
        match l {
            Label::Routine(_) => true,
            Label::Chip8(a) => self.scanned.contains(a),
            Label::Local(_, _) => self.labels.contains_key(l),
        }
    }

    /// Every pending reference lies wholly inside the code.
    pub open spec fn refs_inside(self) -> bool {
        forall|j: int|
            0 <= j < self.refs.len() ==> 0 <= (#[trigger] self.refs[j]).0 && self.refs[j].0 + 2
                <= self.code.len()
    }

    /// Every pending reference is sure to find a definition.
    pub open spec fn linkable(self) -> bool {
        forall|j: int| 0 <= j < self.refs.len() ==> self.ref_ok((#[trigger] self.refs[j]).1)
    }

    /// Define `l` as the current offset.
    pub open spec fn def(self, l: Label) -> Asm {
        Asm { labels: self.labels.insert(l, self.here()), ..self }
    }

    /// Emit a two-byte placeholder for the offset of `l` and record it as
    /// pending.
    pub open spec fn refer(self, l: Label) -> Asm {
        Asm { refs: self.refs.push((self.here(), l)), ..self }.byte(0).byte(0)
    }

    /// The label of the first pending reference, from the `j`-th on, that
    /// has no definition.
    pub open spec fn undefined_from(self, j: int) -> Option<Label>
        decreases self.refs.len() - j,
    {
        if j < 0 || j >= self.refs.len() {
            None
        } else if !self.labels.contains_key(self.refs[j].1) {
            Some(self.refs[j].1)
        } else {
            self.undefined_from(j + 1)
        }
    }

    /// The code after the first `n` pending references have been patched,
    /// in order.
    pub open spec fn resolve(self, n: int) -> Seq<u8>
        decreases n,
    {
        if n <= 0 {
            self.code
        } else {
            patch(self.resolve(n - 1), self.refs[n - 1].0, self.labels[self.refs[n - 1].1])
        }
    }

    /// The code with every pending reference patched.
    pub open spec fn resolved(self) -> Seq<u8> {
        self.resolve(self.refs.len() as int)
    }

    /// The finished image: the resolved code, zero-padded to the image
    /// size.
    pub open spec fn image(self) -> Seq<u8> {
        Seq::new(
            IMAGE_SIZE as nat,
            |i: int|
                if i < self.code.len() {
                    self.resolved()[i]
                } else {
                    0u8
                },
        )
    }
}

/// `t` continues `s`: it is the same compilation, further on. What `s` had
/// emitted, referenced and defined is unchanged in `t`; every reference
/// made since lies wholly in the code emitted since, and not at its first
/// byte; every label defined since points into the code emitted since, or
/// just behind it; and if every reference of `s` could be linked, so can
/// every reference of `t`.
#[verifier::opaque]
pub open spec fn grows(s: Asm, t: Asm) -> bool {
    &&& t.rom == s.rom
    &&& t.scanned == s.scanned
    &&& s.code.len() <= t.code.len()
    &&& forall|i: int| 0 <= i < s.code.len() ==> (#[trigger] t.code[i]) == s.code[i]
    &&& s.refs.len() <= t.refs.len()
    &&& forall|j: int| 0 <= j < s.refs.len() ==> (#[trigger] t.refs[j]) == s.refs[j]
    &&& forall|j: int|
        s.refs.len() <= j < t.refs.len() ==> s.code.len() < (#[trigger] t.refs[j]).0
            && t.refs[j].0 + 2 <= t.code.len()
    &&& forall|l: Label| #[trigger]
        s.labels.contains_key(l) ==> t.labels.contains_key(l) && t.labels[l] == s.labels[l]
    &&& forall|l: Label|
        #![trigger t.labels.contains_key(l)]
        t.labels.contains_key(l) && !s.labels.contains_key(l) ==> s.code.len() <= t.labels[l]
            <= t.code.len()
    &&& s.linkable() ==> t.linkable()
}

/// A continuation is of the same ROM, with the same scanned addresses.
pub proof fn lemma_grows_same_input(s: Asm, t: Asm)
    requires
        grows(s, t),
    ensures
        t.rom == s.rom,
        t.scanned == s.scanned,
        s.code.len() <= t.code.len(),
{
    reveal(grows);
}

/// Patching leaves the code's length alone, and changes no byte outside
/// the two bytes of each reference.
pub proof fn lemma_resolve_keeps(s: Asm, n: int, i: int)
    requires
        0 <= n <= s.refs.len(),
        0 <= i < s.code.len(),
        forall|j: int|
            0 <= j < n ==> 0 <= (#[trigger] s.refs[j]).0 && s.refs[j].0 + 2 <= s.code.len(),
        forall|j: int| 0 <= j < n ==> (#[trigger] s.refs[j]).0 != i && s.refs[j].0 + 1 != i,
    ensures
        s.resolve(n).len() == s.code.len(),
        s.resolve(n)[i] == s.code[i],
    decreases n,
{
    if n > 0 {
        lemma_resolve_keeps(s, n - 1, i);
        assert(s.refs[n - 1].0 != i);
    }
}

/// Where every pending reference is to a label that may be referred to,
/// and every such label is defined, no reference is left undefined.
pub proof fn lemma_all_defined(s: Asm, j: int)
    requires
        0 <= j <= s.refs.len(),
        s.linkable(),
        forall|l: Label| s.ref_ok(l) ==> #[trigger] s.labels.contains_key(l),
    ensures
        s.undefined_from(j) is None,
    decreases s.refs.len() - j,
{
    if j < s.refs.len() {
        assert(s.ref_ok(s.refs[j].1));
        lemma_all_defined(s, j + 1);
    }
}

/// Defining a label that is not defined yet continues the state.
pub proof fn lemma_def(s: Asm, l: Label)
    requires
        s.fresh(l),
    ensures
        grows(s, s.def(l)),
{
    reveal(grows);
}

/// In a continuation of a state whose references lie inside the code, the
/// references lie inside the code.
pub proof fn lemma_grows_refs_inside(s: Asm, t: Asm)
    requires
        grows(s, t),
        s.refs_inside(),
    ensures
        t.refs_inside(),
{
    reveal(grows);
    assert forall|j: int| 0 <= j < t.refs.len() implies 0 <= (#[trigger] t.refs[j]).0
        && t.refs[j].0 + 2 <= t.code.len() by {
        if j < s.refs.len() {
            assert(t.refs[j] == s.refs[j]);
        }
    }
}

/// A continuation of a state whose references can all be linked can be
/// linked too.
pub proof fn lemma_grows_linkable(s: Asm, t: Asm)
    requires
        grows(s, t),
        s.linkable(),
    ensures
        t.linkable(),
{
    reveal(grows);
}

/// Every state continues itself.
pub proof fn lemma_grows_refl(s: Asm)
    ensures
        grows(s, s),
{
    reveal(grows);
}

/// Continuation is transitive.
pub proof fn lemma_grows_trans(a: Asm, b: Asm, c: Asm)
    requires
        grows(a, b),
        grows(b, c),
    ensures
        grows(a, c),
{
    reveal(grows);
    assert forall|i: int| 0 <= i < a.code.len() implies (#[trigger] c.code[i]) == a.code[i] by {
        assert(b.code[i] == a.code[i]);
    }
    assert forall|j: int| 0 <= j < a.refs.len() implies (#[trigger] c.refs[j]) == a.refs[j] by {
        assert(b.refs[j] == a.refs[j]);
    }
    assert forall|j: int| a.refs.len() <= j < c.refs.len() implies a.code.len() < (
    #[trigger] c.refs[j]).0 && c.refs[j].0 + 2 <= c.code.len() by {
        if j < b.refs.len() {
            assert(c.refs[j] == b.refs[j]);
        }
    }
    assert forall|l: Label| #[trigger] a.labels.contains_key(l) implies c.labels.contains_key(l)
        && c.labels[l] == a.labels[l] by {
        assert(b.labels.contains_key(l));
    }
    assert forall|l: Label|
        #![trigger c.labels.contains_key(l)]
        c.labels.contains_key(l) && !a.labels.contains_key(l) implies a.code.len()
        <= c.labels[l] <= c.code.len() by {
        if b.labels.contains_key(l) {
            assert(c.labels[l] == b.labels[l]);
        }
    }
}

} // verus!
