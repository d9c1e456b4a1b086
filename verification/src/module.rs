//! A loaded library, and when two of them count as the same.
use vstd::prelude::*;
use vstd::std_specs::cmp::{PartialEqSpec, PartialEqSpecImpl};
use std::sync::Arc;
use crate::paths::opt_text;

verus! {

#[verifier::external_type_specification]
#[verifier::external_body]
pub struct ExLibrary(libloading::Library);

/// A loaded library.
#[derive(Debug)]
pub struct Lib {
    /// The handle of the loaded library. It is released when the last holder
    /// of this value lets go of it.
    pub lib: libloading::Library,
    /// The path the library was loaded from, which may be a staged copy.
    pub loaded_path: String,
    /// The file that is watched for changes. Absent where nothing is staged.
    pub original_path: Option<String>,
}

/// A [`Lib`] with its paths as sequences of characters.
pub struct LibView {
    pub lib: libloading::Library,
    pub loaded_path: Seq<char>,
    pub original_path: Option<Seq<char>>,
}

impl View for Lib {
    type V = LibView;

    open spec fn view(&self) -> LibView {
        LibView {
            lib: self.lib,
            loaded_path: self.loaded_path@,
            original_path: opt_text(self.original_path),
        }
    }
}

impl PartialEq for Lib {
    /// Two libraries are equal when they watch the same file, or both none.
    fn eq(&self, other: &Lib) -> (res: bool) {
        match (&self.original_path, &other.original_path) {
            (Some(a), Some(b)) => *a == *b,
            (None, None) => true,
            _ => false,
        }
    }
}

impl PartialEqSpecImpl for Lib {
    open spec fn obeys_eq_spec() -> bool {
        true
    }

    open spec fn eq_spec(&self, other: &Lib) -> bool {
        self@.original_path == other@.original_path
    }
}

/// The registered libraries, each as its view.
pub open spec fn lib_views(libs: Seq<Arc<Lib>>) -> Seq<LibView> {
    libs.map_values(|l: Arc<Lib>| l@)
}

/// `Arc::clone`: another holder of the same library.
#[verifier::external_body]
pub(crate) fn share(lib: &Arc<Lib>) -> (res: Arc<Lib>)
    ensures
        res == *lib,
{
    lib.clone()
}

/// `std::mem::forget`: gives up a holder without releasing the library, so
/// that the handle is never closed.
#[verifier::external_body]
pub(crate) fn leak(lib: Arc<Lib>) {
    std::mem::forget(lib)
}

/// Two equal libraries watch the same file, and the other way round. So
/// equality is reflexive, symmetric and transitive.
pub proof fn lemma_equal_iff_same_original_path(a: Lib, b: Lib, c: Lib)
    ensures
        PartialEqSpec::eq_spec(&a, &b) <==> a@.original_path == b@.original_path,
        PartialEqSpec::eq_spec(&a, &a),
        PartialEqSpec::eq_spec(&a, &b) ==> PartialEqSpec::eq_spec(&b, &a),
        PartialEqSpec::eq_spec(&a, &b) && PartialEqSpec::eq_spec(&b, &c) ==> PartialEqSpec::eq_spec(
            &a,
            &c,
        ),
{
}

} // verus!
