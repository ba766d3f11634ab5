use vstd::prelude::*;

verus! {

/// Whether `c` is alphanumeric, as Rust's `char::is_alphanumeric` decides.
pub uninterp spec fn alnum(c: char) -> bool;

/// Relies on `char::is_alphanumeric`: a Unicode property of the character alone.
/// Among ASCII characters exactly the letters and digits are alphanumeric.
#[verifier::external_body]
fn is_alnum(c: char) -> (r: bool)
    ensures
        r == alnum(c),
        ('a' <= c <= 'z' || 'A' <= c <= 'Z' || '0' <= c <= '9') ==> r,
        c <= '\x7f' && !('a' <= c <= 'z' || 'A' <= c <= 'Z' || '0' <= c <= '9') ==> !r,
{
    c.is_alphanumeric()
}

/// A valid module identifier: non-empty, every character alphanumeric.
pub open spec fn valid_module_id(s: Seq<char>) -> bool {
    s.len() > 0 && forall|i: int| 0 <= i < s.len() ==> alnum(#[trigger] s[i])
}

/// The error returned for a string that is not a valid module identifier.
#[derive(Debug, PartialEq, Eq, Structural, Clone, Copy)]
pub struct InvalidModuleId;

/// The identifier under which a module is registered in a router.
#[derive(Clone, Debug, Eq, PartialOrd, Ord)]
pub struct ModuleId(String);

impl View for ModuleId {
    type V = Seq<char>;

    closed spec fn view(&self) -> Seq<char> {
        self.0@
    }
}

impl PartialEq for ModuleId {
    fn eq(&self, o: &ModuleId) -> (r: bool) {
        self.0 == o.0
    }
}

impl vstd::std_specs::cmp::PartialEqSpecImpl for ModuleId {
    open spec fn obeys_eq_spec() -> bool {
        true
    }

    open spec fn eq_spec(&self, o: &ModuleId) -> bool {
        self@ == o@
    }
}

impl ModuleId {
    /// Accepts `s` exactly when it is non-empty and alphanumeric.
    pub fn new(s: &str) -> (r: Result<ModuleId, InvalidModuleId>)
        ensures
            r is Ok <==> valid_module_id(s@),
            r matches Ok(id) ==> id@ == s@,
    {
        let mut all: bool = true;
        let mut nonempty: bool = false;
        for c in it: s.chars()
            invariant
                nonempty <==> it.index() > 0,
                all <==> forall|j: int| 0 <= j < it.index() ==> alnum(#[trigger] it.seq()[j]),
        {
            all = all && is_alnum(c);
            nonempty = true;
        }
        if nonempty && all {
            Ok(ModuleId(s.to_owned()))
        } else {
            Err(InvalidModuleId)
        }
    }

    /// The identifier as a string slice.
    pub fn as_str(&self) -> (r: &str)
        ensures
            r@ == self@,
    {
        self.0.as_str()
    }

    /// A copy of the identifier's text.
    pub fn to_string(&self) -> (r: String)
        ensures
            r@ == self@,
    {
        self.0.clone()
    }
}

impl std::str::FromStr for ModuleId {
    type Err = InvalidModuleId;

    fn from_str(s: &str) -> Result<ModuleId, InvalidModuleId> {
        ModuleId::new(s)
    }
}

} // verus!
