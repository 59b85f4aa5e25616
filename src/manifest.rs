//! The build manifest: the functions of a repository and their build steps.
use vstd::prelude::*;

verus! {

/// How one function is built.
pub struct NurBuild {
    /// Shell command run inside the container's working directory.
    pub command: String,
    /// Path of the produced artifact, relative to the function's directory.
    pub output: String,
}

/// One independently buildable function.
pub struct NurFunction {
    pub name: String,
    /// Directory of the function, relative to the working tree.
    pub directory: String,
    /// Language or runtime of the function; selects the builder image.
    pub template: String,
    pub build: NurBuild,
}

/// The manifest file as parsed, before validation.
pub struct NurFile {
    pub functions: Vec<NurFunction>,
}

/// Why a manifest cannot be used.
#[derive(Debug)]
pub enum ManifestError {
    /// The manifest file is absent.
    NotFound,
    /// The manifest file does not follow the schema.
    Malformed,
    /// Two functions share this name.
    DuplicateName(String),
}

/// Function names are pairwise distinct (case-sensitive).
pub open spec fn names_unique(fs: Seq<NurFunction>) -> bool {
    forall|i: int, j: int|
        0 <= i < j < fs.len() ==> (#[trigger] fs[i]).name@ != (#[trigger] fs[j]).name@
}

/// A validated manifest: an ordered list of functions with unique names.
pub struct BuildManifest {
    pub functions: Vec<NurFunction>,
}

impl BuildManifest {
    pub open spec fn wf(&self) -> bool {
        names_unique(self.functions@)
    }

    /// Validates a parsed manifest. It is rejected exactly when two of its
    /// functions share a name, and the error carries that name.
    pub fn load(file: NurFile) -> (r: Result<BuildManifest, ManifestError>)
        ensures
            r is Ok <==> names_unique(file.functions@),
            r matches Ok(m) ==> m.functions@ == file.functions@ && m.wf(),
            r matches Err(e) ==> e matches ManifestError::DuplicateName(n) && exists|i: int, j: int|
                0 <= i < j < file.functions@.len() && file.functions@[i].name@ == n@
                    && file.functions@[j].name@ == n@,
    {
        let n = file.functions.len();
        let mut j: usize = 0;
        while j < n
            invariant
                0 <= j <= n,
                n == file.functions@.len(),
                names_unique(file.functions@.subrange(0, j as int)),
            decreases n - j,
        {
            let mut i: usize = 0;
            while i < j
                invariant
                    0 <= i <= j < n,
                    n == file.functions@.len(),
                    forall|k: int| 0 <= k < i ==> file.functions@[k].name@ != file.functions@[j as int].name@,
                decreases j - i,
            {
                if file.functions[i].name == file.functions[j].name {
                    let name = file.functions[j].name.clone();
                    proof {
                        let (a, b) = (i as int, j as int);
                        assert(file.functions@[a].name@ == name@ && file.functions@[b].name@ == name@);
                        assert(!names_unique(file.functions@)) by {
                            assert(file.functions@[a].name@ == file.functions@[b].name@);
                        }
                    }
                    return Err(ManifestError::DuplicateName(name));
                }
                i = i + 1;
            }
            proof {
                let s = file.functions@.subrange(0, j + 1);
                assert forall|a: int, b: int| 0 <= a < b < s.len() implies (#[trigger] s[a]).name@
                    != (#[trigger] s[b]).name@ by {
                    if b < j {
                        assert(file.functions@.subrange(0, j as int)[a] == s[a]);
                        assert(file.functions@.subrange(0, j as int)[b] == s[b]);
                    }
                }
            }
            j = j + 1;
        }
        assert(file.functions@.subrange(0, n as int) =~= file.functions@);
        Ok(BuildManifest { functions: file.functions })
    }
}

} // verus!
