use vstd::prelude::*;

use fxhash::FxHashMap;

verus! {

/// Why a shader could not be had.
#[derive(Clone, Debug, PartialEq, Eq)]
pub enum ShaderError {
    /// No shader of that name exists.
    NotFound,
    /// The shader failed to compile; the compiler's message.
    Compile(String),
}

/// One compiled shader, or the error its compilation left, under its path.
#[derive(Debug)]
pub struct ShaderSource {
    pub name: String,
    pub compiled: Result<Vec<u8>, String>,
}

/// Table from shader paths to their compiled bytecode, produced ahead of time.
#[derive(Debug)]
pub struct ShaderTable {
    pub entries: Vec<ShaderSource>,
}

/// What looking `name` up in `entries` gives: the first entry of that name
/// decides, and a name that is absent is `NotFound`.
pub open spec fn spec_lookup(entries: Seq<ShaderSource>, name: Seq<char>) -> Result<
    Seq<u8>,
    ShaderError,
>
    decreases entries.len(),
{
    if entries.len() == 0 {
        Err(ShaderError::NotFound)
    } else if entries[0].name@ == name {
        match entries[0].compiled {
            Ok(code) => Ok(code@),
            Err(msg) => Err(ShaderError::Compile(msg)),
        }
    } else {
        spec_lookup(entries.skip(1), name)
    }
}

/// A shader module ready to be created on the device.
#[derive(Clone, Debug)]
pub struct ShaderModuleDesc {
    pub label: String,
    pub spirv: Vec<u8>,
    /// Whether the device validates the module.
    pub validate: bool,
}

impl ShaderTable {
    pub open spec fn spec_get(&self, name: Seq<char>) -> Result<Seq<u8>, ShaderError> {
        spec_lookup(self.entries@, name)
    }

    pub fn lookup(&self, name: &String) -> (r: Result<&Vec<u8>, ShaderError>)
        ensures
            match self.spec_get(name@) {
                Ok(code) => r is Ok && r->Ok_0@ == code,
                Err(e) => r == Err::<&Vec<u8>, ShaderError>(e),
            },
    {
        let n = self.entries.len();
        let mut i: usize = 0;
        assert(self.entries@.skip(0) =~= self.entries@);
        while i < n
            invariant
                n == self.entries@.len(),
                i <= n,
                spec_lookup(self.entries@, name@) == spec_lookup(
                    self.entries@.skip(i as int),
                    name@,
                ),
            decreases n - i,
        {
            let entry = &self.entries[i];
            assert(self.entries@.skip(i as int)[0] == self.entries@[i as int]);
            assert(self.entries@.skip(i as int).skip(1) =~= self.entries@.skip(i as int + 1));
            if entry.name == *name {
                return match &entry.compiled {
                    Ok(code) => Ok(code),
                    Err(msg) => Err(ShaderError::Compile(msg.clone())),
                };
            }
            i = i + 1;
        }
        Err(ShaderError::NotFound)
    }
}

/// Looks a shader up and readies it for the device. A shader that is missing
/// or failed to compile is a fatal error, so callers check first.
pub fn load(table: &ShaderTable, name: &String, validate: bool) -> (r: ShaderModuleDesc)
    requires
        table.spec_get(name@) is Ok,
    ensures
        r.label@ == name@,
        r.spirv@ == table.spec_get(name@)->Ok_0,
        r.validate == validate,
{
    let code = table.lookup(name).unwrap();
    let spirv = code.clone();
    assert(spirv@ =~= code@);
    ShaderModuleDesc { label: name.clone(), spirv, validate }
}

/// Compiled modules by shader name, kept for the lifetime of the context.
#[verifier::external_body]
pub struct ShaderCache {
    modules: FxHashMap<String, Vec<u8>>,
}

/// The modules a cache holds, by name.
pub uninterp spec fn cached_modules(c: ShaderCache) -> Map<Seq<char>, Seq<u8>>;

/// Relies on `Default` for `FxHashMap`: a new map is empty.
#[verifier::external_body]
pub(crate) fn cache_new() -> (r: ShaderCache)
    ensures
        cached_modules(r).dom() == Set::<Seq<char>>::empty(),
{
    ShaderCache { modules: FxHashMap::default() }
}

/// Relies on `HashMap::get` over fxhash's hasher: the value stored under the
/// key equal to `name`, if there is one.
#[verifier::external_body]
pub(crate) fn cache_get<'a>(c: &'a ShaderCache, name: &String) -> (r: Option<&'a Vec<u8>>)
    ensures
        r is Some == cached_modules(*c).contains_key(name@),
        r is Some ==> r->Some_0@ == cached_modules(*c)[name@],
{
    c.modules.get(name)
}

/// Relies on `HashMap::insert` over fxhash's hasher: afterwards `name` maps to
/// `module` and every other key is unchanged.
#[verifier::external_body]
pub(crate) fn cache_insert(c: &mut ShaderCache, name: String, module: Vec<u8>)
    ensures
        cached_modules(*final(c)) == cached_modules(*old(c)).insert(name@, module@),
{
    c.modules.insert(name, module);
}

} // verus!
