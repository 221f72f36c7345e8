use vstd::prelude::*;

verus! {

/// How a freshly allocated buffer or texture is filled.
#[derive(Clone, Debug)]
pub enum InitType {
    /// Allocated without contents.
    Uninit,
    /// Filled with zero bytes.
    Zeros,
    /// Filled with the given pattern, repeated and cut off at the size.
    Repeated(Vec<u8>),
    /// Filled with exactly these bytes.
    Data(Vec<u8>),
}

/// The initial contents for `size` bytes, `None` when the resource is left
/// uninitialised.
pub open spec fn spec_init_data(init: InitType, size: nat) -> Option<Seq<u8>> {
    match init {
        InitType::Uninit => None,
        InitType::Zeros => Some(Seq::new(size, |i: int| 0u8)),
        InitType::Repeated(word) => Some(
            Seq::new(size, |i: int| word@[i % (word@.len() as int)]),
        ),
        InitType::Data(data) => Some(data@),
    }
}

impl InitType {
    /// Whether `size` bytes can be filled: a repeated pattern must not be
    /// empty unless nothing is to be filled.
    pub open spec fn can_fill(&self, size: nat) -> bool {
        match self {
            InitType::Repeated(word) => word@.len() > 0 || size == 0,
            _ => true,
        }
    }

    /// Decides whether a resource of `size` bytes is created empty (`None`)
    /// or created together with the returned bytes.
    pub fn create(self, size: usize) -> (r: Option<Vec<u8>>)
        requires
            self.can_fill(size as nat),
        ensures
            r.is_some() == spec_init_data(self, size as nat).is_some(),
            r.is_some() ==> r.unwrap()@ == spec_init_data(self, size as nat).unwrap(),
    {
        match self {
            InitType::Uninit => None,
            InitType::Zeros => {
                let v: Vec<u8> = vec![0u8; size];
                assert(v@ =~= Seq::new(size as nat, |i: int| 0u8));
                Some(v)
            },
            InitType::Repeated(word) => {
                if size == 0 {
                    let empty: Vec<u8> = Vec::new();
                    assert(empty@ =~= Seq::new(0, |k: int| word@[k % (word@.len() as int)]));
                    return Some(empty);
                }
                let n = word.len();
                let mut v: Vec<u8> = Vec::with_capacity(size);
                let mut i: usize = 0;
                while i < size
                    invariant
                        n == word@.len(),
                        n > 0,
                        i <= size,
                        v@ =~= Seq::new(i as nat, |k: int| word@[k % (n as int)]),
                    decreases size - i,
                {
                    v.push(word[i % n]);
                    i = i + 1;
                }
                Some(v)
            },
            InitType::Data(data) => Some(data),
        }
    }
}

} // verus!
