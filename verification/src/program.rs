use vstd::prelude::*;

verus! {

/// A network-scoped program identifier, such as the name a manifest binds
/// its directory to. It is opaque to this layer beyond equality: resolution
/// only ever compares identifiers and uses them as lookup keys.
#[derive(Debug)]
pub struct ProgramId {
    pub name: String,
}

impl View for ProgramId {
    type V = Seq<char>;

    open spec fn view(&self) -> Seq<char> {
        self.name@
    }
}

impl ProgramId {
    /// Wrap an identifier string.
    pub fn new(name: String) -> (r: ProgramId)
        ensures
            r@ == name@,
    {
        ProgramId { name }
    }

    /// Identifier equality, the only question this layer ever asks of an id.
    pub fn matches(&self, other: &ProgramId) -> (r: bool)
        ensures
            r == (self@ == other@),
    {
        self.name == other.name
    }
}

impl Clone for ProgramId {
    fn clone(&self) -> (r: Self)
        ensures
            r@ == self@,
    {
        ProgramId { name: self.name.clone() }
    }
}

/// The on-disk descriptor that binds a program directory to exactly one
/// program identifier. How the descriptor is serialized is an external
/// concern; this layer sees only the identifier it carries.
#[derive(Debug)]
pub struct Manifest {
    pub program_id: ProgramId,
}

impl View for Manifest {
    type V = Seq<char>;

    open spec fn view(&self) -> Seq<char> {
        self.program_id@
    }
}

impl Manifest {
    /// Build a manifest carrying the given identifier.
    pub fn new(program_id: ProgramId) -> (r: Manifest)
        ensures
            r@ == program_id@,
    {
        Manifest { program_id }
    }
}

/// The mathematical content of a loaded program: its own identifier and the
/// ordered identifiers of its direct imports.
pub struct ProgramData {
    pub id: Seq<char>,
    pub imports: Seq<Seq<char>>,
}

/// An immutable loaded program definition. Beyond its identity, the only
/// part this layer reads is the ordered mapping of direct imports, which
/// drives caller-side recursive resolution.
#[derive(Debug)]
pub struct Program {
    pub id: ProgramId,
    pub imports: Vec<ProgramId>,
}

impl View for Program {
    type V = ProgramData;

    open spec fn view(&self) -> ProgramData {
        ProgramData {
            id: self.id@,
            imports: self.imports@.map_values(|p: ProgramId| p@),
        }
    }
}

impl Program {
    /// Build a program with the given identity and ordered import keys.
    pub fn new(id: ProgramId, imports: Vec<ProgramId>) -> (r: Program)
        ensures
            r@.id == id@,
            r@.imports.len() == imports@.len(),
            forall|i: int|
                0 <= i < imports@.len() ==> r@.imports[i] == imports@[i]@,
    {
        Program { id, imports }
    }

    /// The program's own identifier.
    pub fn id(&self) -> (r: &ProgramId)
        ensures
            r@ == self@.id,
    {
        &self.id
    }

    /// The ordered identifiers of the program's direct imports. Reading
    /// them never mutates the program.
    pub fn imports(&self) -> (r: &Vec<ProgramId>)
        ensures
            r@.len() == self@.imports.len(),
            forall|i: int| 0 <= i < r@.len() ==> r@[i]@ == self@.imports[i],
    {
        &self.imports
    }
}

impl Clone for Program {
    fn clone(&self) -> (r: Self)
        ensures
            r@.id == self@.id,
            r@.imports == self@.imports,
    {
        let id = self.id.clone();
        let mut imports: Vec<ProgramId> = Vec::new();
        let mut i: usize = 0;
        while i < self.imports.len()
            invariant
                i <= self.imports.len(),
                imports@.len() == i,
                forall|j: int| 0 <= j < i ==> imports@[j]@ == self.imports@[j]@,
            decreases self.imports.len() - i,
        {
            imports.push(self.imports[i].clone());
            i = i + 1;
        }
        let r = Program { id, imports };
        proof {
            assert(r@.imports =~= self@.imports);
        }
        r
    }
}

/// An encrypted unit of on-chain state. Its contents are opaque to this
/// layer; it is only enumerated and handed through.
#[derive(Debug)]
pub struct RecordCiphertext {
    pub data: Vec<u8>,
}

impl View for RecordCiphertext {
    type V = Seq<u8>;

    open spec fn view(&self) -> Seq<u8> {
        self.data@
    }
}

/// A decrypted, spendable unit of on-chain state. Its contents are opaque
/// to this layer; it is only enumerated and handed through.
#[derive(Debug)]
pub struct RecordPlaintext {
    pub data: Vec<u8>,
}

impl View for RecordPlaintext {
    type V = Seq<u8>;

    open spec fn view(&self) -> Seq<u8> {
        self.data@
    }
}

} // verus!
