use vstd::prelude::*;

verus! {

/// Context for collecting intermediate-representation files, compiler
/// flags and a compiler choice, to be linked into a static library by a
/// toolchain driver.
#[derive(Debug)]
pub struct Build {
    compiler: Option<String>,
    filenames: Vec<String>,
    flags: Vec<String>,
}

/// Mathematical model of a [`Build`].
#[verifier::ext_equal]
pub struct BuildV {
    /// The chosen compiler, if any.
    pub compiler: Option<Seq<char>>,
    /// The collected file names, in order.
    pub filenames: Seq<Seq<char>>,
    /// The collected flags, in order.
    pub flags: Seq<Seq<char>>,
}

impl View for Build {
    type V = BuildV;

    closed spec fn view(&self) -> BuildV {
        BuildV {
            compiler: match self.compiler {
                Option::Some(ref c) => Option::Some(c@),
                Option::None => Option::None,
            },
            filenames: self.filenames@.map_values(|s: String| s@),
            flags: self.flags@.map_values(|s: String| s@),
        }
    }
}

impl Default for Build {
    /// An empty build context: no files, no flags, no compiler choice.
    fn default() -> (r: Build)
        ensures
            r@ == (BuildV {
                compiler: Option::None,
                filenames: Seq::<Seq<char>>::empty(),
                flags: Seq::<Seq<char>>::empty(),
            }),
    {
        let b = Build { compiler: None, filenames: Vec::new(), flags: Vec::new() };
        proof {
            assert(b@ =~~= (BuildV {
                compiler: Option::None,
                filenames: Seq::<Seq<char>>::empty(),
                flags: Seq::<Seq<char>>::empty(),
            }));
        }
        b
    }
}

impl Build {
    /// Create a new, empty build context.
    pub fn new() -> (r: Build)
        ensures
            r@ == (BuildV {
                compiler: Option::None,
                filenames: Seq::<Seq<char>>::empty(),
                flags: Seq::<Seq<char>>::empty(),
            }),
    {
        Build::default()
    }

    /// Add an intermediate-representation or bitcode file.
    pub fn file(&mut self, path: &str) -> (r: &mut Build)
        ensures
            r@ == (BuildV { filenames: old(self)@.filenames.push(path@), ..old(self)@ }),
            final(self)@ == final(r)@,
    {
        self.filenames.push(String::from_str(path));
        proof {
            assert(self@ =~~= (BuildV {
                filenames: old(self)@.filenames.push(path@),
                ..old(self)@
            }));
        }
        self
    }

    /// Add a compiler flag.
    pub fn flag(&mut self, flag: &str) -> (r: &mut Build)
        ensures
            r@ == (BuildV { flags: old(self)@.flags.push(flag@), ..old(self)@ }),
            final(self)@ == final(r)@,
    {
        self.flags.push(String::from_str(flag));
        proof {
            assert(self@ =~~= (BuildV { flags: old(self)@.flags.push(flag@), ..old(self)@ }));
        }
        self
    }

    /// Set the compiler name.
    pub fn compiler(&mut self, name: &str) -> (r: &mut Build)
        ensures
            r@ == (BuildV { compiler: Option::Some(name@), ..old(self)@ }),
            final(self)@ == final(r)@,
    {
        self.compiler = Some(String::from_str(name));
        proof {
            assert(self@ =~~= (BuildV { compiler: Option::Some(name@), ..old(self)@ }));
        }
        self
    }

    /// The collected file names, in order.
    pub fn files(&self) -> (r: &Vec<String>)
        ensures
            r@.map_values(|s: String| s@) == self@.filenames,
    {
        &self.filenames
    }

    /// The collected flags, in order.
    pub fn flags(&self) -> (r: &Vec<String>)
        ensures
            r@.map_values(|s: String| s@) == self@.flags,
    {
        &self.flags
    }

    /// The chosen compiler name, if any.
    pub fn compiler_name(&self) -> (r: &Option<String>)
        ensures
            (r is Some) == (self@.compiler is Some),
            r matches Some(c) ==> self@.compiler == Option::Some(c@),
    {
        &self.compiler
    }
}

} // verus!
