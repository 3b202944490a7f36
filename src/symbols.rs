//! The symbol table: each declared name with the descriptor of its type.
use vstd::prelude::*;
use crate::numbers::usize_of;
use crate::text::same_text;

verus! {

/// What the table records of a declared name.
pub enum TypeDesc {
    /// A scalar, with its base type as written (`int`, `float`, `String`, ...).
    Scalar(String),
    /// A pointer to an integer cell (`box`).
    Pointer,
    /// A stack array: element type and size, as written.
    Array(String, String),
    /// A heap block: element type and requested size, as written.
    Heap(String, String),
}

/// The mathematical form of a descriptor.
pub enum DescView {
    Scalar(Seq<char>),
    Pointer,
    Array(Seq<char>, Seq<char>),
    Heap(Seq<char>, Seq<char>),
}

impl View for TypeDesc {
    type V = DescView;

    open spec fn view(&self) -> DescView {
        match self {
            TypeDesc::Scalar(b) => DescView::Scalar(b@),
            TypeDesc::Pointer => DescView::Pointer,
            TypeDesc::Array(b, n) => DescView::Array(b@, n@),
            TypeDesc::Heap(b, n) => DescView::Heap(b@, n@),
        }
    }
}

impl DescView {
    /// Arrays and heap blocks: the descriptors that carry a size.
    pub open spec fn is_sized(self) -> bool {
        self is Array || self is Heap
    }

    /// The element type of an array or heap block; `String` for the others.
    pub open spec fn inner(self) -> Seq<char> {
        match self {
            DescView::Array(b, _) => b,
            DescView::Heap(b, _) => b,
            _ => "String"@,
        }
    }

    /// The size text of an array or heap block.
    pub open spec fn size_text(self) -> Seq<char> {
        match self {
            DescView::Array(_, n) => n,
            DescView::Heap(_, n) => n,
            _ => Seq::empty(),
        }
    }

    /// The size, where it is a number; zero where it is not known.
    pub open spec fn max_size(self) -> usize {
        if self.is_sized() {
            match usize_of(self.size_text()) {
                Some(n) => n,
                None => 0,
            }
        } else {
            0
        }
    }
}

/// The entries in order of declaration, as pairs of views.
pub open spec fn entry_views(v: Seq<(String, TypeDesc)>) -> Seq<(Seq<char>, DescView)> {
    v.map_values(|e: (String, TypeDesc)| (e.0@, e.1@))
}

/// The map that a list of entries stands for; a later entry wins.
pub open spec fn map_of(s: Seq<(Seq<char>, DescView)>) -> Map<Seq<char>, DescView>
    decreases s.len(),
{
    if s.len() == 0 {
        Map::empty()
    } else {
        map_of(s.drop_last()).insert(s.last().0, s.last().1)
    }
}

proof fn lemma_map_of_absent(s: Seq<(Seq<char>, DescView)>, k: Seq<char>)
    requires
        forall|i: int| 0 <= i < s.len() ==> (#[trigger] s[i]).0 != k,
    ensures
        !map_of(s).contains_key(k),
    decreases s.len(),
{
    if s.len() > 0 {
        assert forall|i: int| 0 <= i < s.drop_last().len() implies (
        #[trigger] s.drop_last()[i]).0 != k by {
            assert(s.drop_last()[i] == s[i]);
        }
        lemma_map_of_absent(s.drop_last(), k);
    }
}

proof fn lemma_map_of_last(s: Seq<(Seq<char>, DescView)>, i: int)
    requires
        0 <= i < s.len(),
        forall|j: int| i < j < s.len() ==> (#[trigger] s[j]).0 != s[i].0,
    ensures
        map_of(s).contains_key(s[i].0),
        map_of(s)[s[i].0] == s[i].1,
    decreases s.len(),
{
    if i < s.len() - 1 {
        assert forall|j: int| i < j < s.drop_last().len() implies (
        #[trigger] s.drop_last()[j]).0 != s.drop_last()[i].0 by {
            assert(s.drop_last()[j] == s[j]);
        }
        lemma_map_of_last(s.drop_last(), i);
    }
}

/// Every declared name with its descriptor. Names are never removed or
/// retyped; a declaration of a present name is refused before it gets here.
pub struct SymbolTable {
    entries: Vec<(String, TypeDesc)>,
}

impl View for SymbolTable {
    type V = Map<Seq<char>, DescView>;

    closed spec fn view(&self) -> Map<Seq<char>, DescView> {
        map_of(entry_views(self.entries@))
    }
}

impl SymbolTable {
    pub fn new() -> (r: SymbolTable)
        ensures
            r@ == Map::<Seq<char>, DescView>::empty(),
    {
        let r = SymbolTable { entries: Vec::new() };
        assert(entry_views(r.entries@) =~= Seq::empty());
        r
    }

    /// The position of the latest entry for `name`.
    fn find(&self, name: &str) -> (r: Option<usize>)
        ensures
            match r {
                Some(i) => i < self.entries.len() && self@.contains_key(name@) && self@[name@]
                    == self.entries@[i as int].1@,
                None => !self@.contains_key(name@),
            },
    {
        let ghost s = entry_views(self.entries@);
        let mut i = self.entries.len();
        while i > 0
            invariant
                i <= self.entries.len(),
                s == entry_views(self.entries@),
                forall|j: int| i <= j < s.len() ==> (#[trigger] s[j]).0 != name@,
            decreases i,
        {
            i -= 1;
            if same_text(self.entries[i].0.as_str(), name) {
                proof {
                    lemma_map_of_last(s, i as int);
                }
                return Some(i);
            }
        }
        proof {
            lemma_map_of_absent(s, name@);
        }
        None
    }

    pub fn contains(&self, name: &str) -> (r: bool)
        ensures
            r == self@.contains_key(name@),
    {
        self.find(name).is_some()
    }

    pub fn get(&self, name: &str) -> (r: Option<&TypeDesc>)
        ensures
            match r {
                Some(d) => self@.contains_key(name@) && self@[name@] == d@,
                None => !self@.contains_key(name@),
            },
    {
        match self.find(name) {
            Some(i) => Some(&self.entries[i].1),
            None => None,
        }
    }

    /// Records a name that is not yet declared.
    pub fn insert(&mut self, name: String, desc: TypeDesc)
        requires
            !old(self)@.contains_key(name@),
        ensures
            final(self)@ == old(self)@.insert(name@, desc@),
    {
        let ghost before = self.entries@;
        let ghost nv = name@;
        let ghost dv = desc@;
        self.entries.push((name, desc));
        assert(entry_views(self.entries@).drop_last() =~= entry_views(before));
    }
}

} // verus!
