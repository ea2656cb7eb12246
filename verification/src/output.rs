//! The phase-1 declaration of the resource.
//!
//! The declaration is the only state that crosses from the declaration step to
//! the materialization step (the host runtime may persist it in between), so
//! it carries plain data only: the two configured file names and, when the
//! declaration was made for production, the manifest the external
//! static-folder provider emitted for its pending copy.
use crate::path::join;
use crate::path::join_path;
use vstd::prelude::*;

verus! {

/// The manifest type of the external static-folder provider,
/// `shuttle_static_folder::Paths`: opaque location data emitted when the
/// provider declares a copy, which this crate holds on to and hands back to
/// the provider's copy step, never reading inside it.
#[verifier::external_type_specification]
#[verifier::external_body]
pub struct ExPaths(shuttle_static_folder::Paths);

/// What the resource declared it needs: the file names echoed from the
/// descriptor (an empty local name encodes "load nothing locally") and the
/// provider's copy manifest, present exactly when declared for production.
pub struct ResourceOutput {
    env_prod: String,
    env_local: String,
    paths: Option<shuttle_static_folder::Paths>,
}

impl ResourceOutput {
    /// The production file name this declaration carries.
    pub closed spec fn spec_env_prod(&self) -> Seq<char> {
        self.env_prod@
    }

    /// The local file name this declaration carries; empty means absent.
    pub closed spec fn spec_env_local(&self) -> Seq<char> {
        self.env_local@
    }

    /// The copy manifest the declaration carries, present exactly when it
    /// was made for production.
    pub closed spec fn spec_paths(&self) -> Option<shuttle_static_folder::Paths> {
        self.paths
    }

    /// Whether the declaration holds a copy manifest, i.e. was made for
    /// production.
    pub open spec fn has_paths(&self) -> bool {
        self.spec_paths() is Some
    }

    pub fn new(
        paths: Option<shuttle_static_folder::Paths>,
        env_local: Option<&str>,
        env_prod: &str,
    ) -> (r: Self)
        ensures
            r.spec_paths() == paths,
            r.spec_env_prod() == env_prod@,
            env_local matches Some(l) ==> r.spec_env_local() == l@,
            env_local is None ==> r.spec_env_local() == Seq::<char>::empty(),
    {
        ResourceOutput {
            paths,
            env_local: match env_local {
                Some(l) => l.to_owned(),
                None => String::new(),
            },
            env_prod: env_prod.to_owned(),
        }
    }

    /// The path of the environment file to load: under `output_dir` the
    /// production file, and with no `output_dir` the local file (empty when
    /// none was configured).
    pub fn env_file_path(&self, output_dir: Option<&str>) -> (r: String)
        ensures
            output_dir matches Some(d) ==> r@ == join_path(d@, self.spec_env_prod()),
            output_dir is None ==> r@ == self.spec_env_local(),
    {
        match output_dir {
            Some(dir) => join(dir, self.env_prod.as_str()),
            None => self.env_local.clone(),
        }
    }

    /// The provider's copy manifest, present exactly when the declaration was
    /// made for production.
    pub fn paths(&self) -> (r: &Option<shuttle_static_folder::Paths>)
        ensures
            *r == self.spec_paths(),
    {
        &self.paths
    }

    /// Surrender the declaration's parts: the manifest, the local file name
    /// and the production file name, in that order.
    pub fn into_parts(self) -> (r: (Option<shuttle_static_folder::Paths>, String, String))
        ensures
            r.0 == self.spec_paths(),
            r.1@ == self.spec_env_local(),
            r.2@ == self.spec_env_prod(),
    {
        let ResourceOutput { env_prod, env_local, paths } = self;
        (paths, env_local, env_prod)
    }
}

} // verus!
