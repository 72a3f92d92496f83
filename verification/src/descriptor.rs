//! The model descriptor: what a caller supplies to register a model.

use vstd::prelude::*;
use crate::params::ParamMap;
use crate::source::{parse_source, selector_of, source_model_id, source_prefix, BackendSelector};
use crate::wrapper::DefaultEntry;

verus! {

/// The role a referenced model file plays.
#[derive(Clone, Copy, PartialEq, Eq, Structural, Debug)]
pub enum FileKind {
    /// A weights file.
    Weights,
    /// A tokenizer file.
    Tokenizer,
    /// A tokenizer configuration file.
    TokenizerConfig,
    /// A model configuration file.
    Config,
}

/// One typed file reference of a model descriptor.
#[derive(Debug)]
pub struct ModelFile {
    /// The role the file plays.
    pub kind: FileKind,
    /// Where the file lives.
    pub path: String,
}

/// A model descriptor: everything a caller states about one model.
#[derive(Debug)]
pub struct ModelDescriptor {
    /// The name the model is registered under.
    pub name: String,
    /// The source string, `<prefix>[:<id>]`.
    pub from: String,
    /// The descriptor's plain key/value parameters.
    pub params: ParamMap,
    /// The default-parameter list applied to every request.
    pub defaults: Vec<DefaultEntry>,
    /// The typed file references.
    pub files: Vec<ModelFile>,
}

/// The paths of all files of kind `k`, in declaration order.
pub open spec fn paths_of_kind(fs: Seq<ModelFile>, k: FileKind) -> Seq<Seq<char>>
    decreases fs.len(),
{
    if fs.len() == 0 {
        Seq::empty()
    } else {
        let rest = paths_of_kind(fs.drop_last(), k);
        if fs.last().kind == k {
            rest.push(fs.last().path@)
        } else {
            rest
        }
    }
}

/// The path of the first file of kind `k`, if any.
pub open spec fn first_path_of_kind(fs: Seq<ModelFile>, k: FileKind) -> Option<Seq<char>>
    decreases fs.len(),
{
    if fs.len() == 0 {
        None
    } else if fs[0].kind == k {
        Some(fs[0].path@)
    } else {
        first_path_of_kind(fs.skip(1), k)
    }
}

impl ModelDescriptor {
    /// The backend the source string selects, if its prefix is recognized.
    pub fn get_source(&self) -> (r: Option<BackendSelector>)
        ensures
            r == selector_of(source_prefix(self.from@)),
    {
        parse_source(self.from.as_str()).0
    }

    /// The model identifier the source string carries, if any.
    pub fn get_model_id(&self) -> (r: Option<String>)
        ensures
            match r {
                Some(id) => source_model_id(self.from@) == Some(id@),
                None => source_model_id(self.from@) is None,
            },
    {
        parse_source(self.from.as_str()).1
    }

    /// The paths of all files of kind `k`, in declaration order.
    pub fn find_all_file_path(&self, k: FileKind) -> (r: Vec<String>)
        ensures
            r@.map_values(|s: String| s@) == paths_of_kind(self.files@, k),
    {
        let n = self.files.len();
        let mut acc: Vec<String> = Vec::new();
        let mut i: usize = 0;
        proof {
            assert(self.files@.take(0) =~= Seq::<ModelFile>::empty());
            assert(acc@.map_values(|s: String| s@) =~= paths_of_kind(self.files@.take(0), k));
        }
        while i < n
            invariant
                0 <= i <= n,
                n == self.files@.len(),
                acc@.map_values(|s: String| s@) == paths_of_kind(self.files@.take(i as int), k),
            decreases n - i,
        {
            proof {
                assert(self.files@.take(i + 1).drop_last() =~= self.files@.take(i as int));
                assert(self.files@.take(i + 1).last() == self.files@[i as int]);
            }
            let ghost prev = acc@.map_values(|s: String| s@);
            if self.files[i].kind == k {
                acc.push(self.files[i].path.clone());
                proof {
                    assert(acc@.map_values(|s: String| s@) =~= prev.push(
                        self.files@[i as int].path@,
                    ));
                }
            }
            i += 1;
        }
        proof {
            assert(self.files@.take(n as int) =~= self.files@);
        }
        acc
    }

    /// The path of the first file of kind `k`, if any.
    pub fn find_any_file_path(&self, k: FileKind) -> (r: Option<String>)
        ensures
            match r {
                Some(p) => first_path_of_kind(self.files@, k) == Some(p@),
                None => first_path_of_kind(self.files@, k) is None,
            },
    {
        let n = self.files.len();
        let mut i: usize = 0;
        proof {
            assert(self.files@.skip(0) =~= self.files@);
        }
        while i < n
            invariant
                0 <= i <= n,
                n == self.files@.len(),
                first_path_of_kind(self.files@, k) == first_path_of_kind(
                    self.files@.skip(i as int),
                    k,
                ),
            decreases n - i,
        {
            proof {
                assert(self.files@.skip(i as int)[0] == self.files@[i as int]);
                assert(self.files@.skip(i as int).skip(1) =~= self.files@.skip(i + 1));
            }
            if self.files[i].kind == k {
                return Some(self.files[i].path.clone());
            }
            i += 1;
        }
        None
    }
}

} // verus!
