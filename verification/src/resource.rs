//! The resource descriptor and the two-phase resolution it drives.
//!
//! [`EnvVars`] captures the configuration (source folder, production file
//! name, optional local file name) and owns the configuration of the external
//! static-folder provider. Phase 1 ([`EnvVars::output`]) decides, from the
//! deployment environment alone, whether the provider must copy the source
//! folder; phase 2 ([`EnvVars::build`]) resolves the final file path and
//! loads it. The provider's own copy steps are asynchronous collaborator
//! calls, so each phase hands its caller an explicit step to perform instead
//! of performing it here.
use crate::envfile::install_pairs;
use crate::envfile::read_env_file;
use crate::envfile::EnvError;
use crate::envfile::EnvSink;
use crate::envfile::LoadFailure;
use crate::output::ResourceOutput;
use crate::path::join_path;
use vstd::prelude::*;

verus! {

/// The deployment environment the host runtime reports for this provisioning
/// cycle.
#[derive(Clone, Copy, Debug)]
pub enum Environment {
    Local,
    Production,
}

/// The configuration this crate hands the external static-folder provider:
/// the source folder it must copy. The descriptor owns it in a slot that
/// phase 1 empties, so the copy can be delegated at most once.
pub struct CopyDelegate {
    folder: String,
}

impl CopyDelegate {
    /// The source folder the delegate is targeted at.
    pub closed spec fn spec_folder(&self) -> Seq<char> {
        self.folder@
    }

    /// Retarget the delegate at another source folder.
    pub fn folder(self, folder: &str) -> (r: Self)
        ensures
            r.spec_folder() == folder@,
    {
        CopyDelegate { folder: folder.to_owned() }
    }
}

/// A production declaration waiting on the provider's copy: the folder to
/// hand the provider, and the file names to echo into the declaration once
/// the provider returns its manifest.
pub struct PendingCopy {
    delegate: CopyDelegate,
    env_prod: String,
    env_local: Option<String>,
}

impl PendingCopy {
    /// The source folder the provider must copy.
    pub closed spec fn spec_folder(&self) -> Seq<char> {
        self.delegate.spec_folder()
    }

    /// The production file name that will be echoed into the declaration.
    pub closed spec fn spec_env_prod(&self) -> Seq<char> {
        self.env_prod@
    }

    /// The local file name that will be echoed into the declaration.
    pub closed spec fn spec_env_local(&self) -> Option<Seq<char>> {
        match self.env_local {
            Some(l) => Some(l@),
            None => None,
        }
    }

    /// The source folder to configure the provider with.
    pub fn folder(&self) -> (r: &String)
        ensures
            r@ == self.spec_folder(),
    {
        &self.delegate.folder
    }

    /// Wrap the manifest the provider emitted into the finished declaration.
    pub fn finish(self, paths: shuttle_static_folder::Paths) -> (r: ResourceOutput)
        ensures
            r.spec_paths() == Some(paths),
            r.spec_env_prod() == self.spec_env_prod(),
            self.spec_env_local() matches Some(l) ==> r.spec_env_local() == l,
            self.spec_env_local() is None ==> r.spec_env_local() == Seq::<char>::empty(),
    {
        let env_local: Option<&str> = match &self.env_local {
            Some(l) => Some(l.as_str()),
            None => None,
        };
        ResourceOutput::new(Some(paths), env_local, self.env_prod.as_str())
    }
}

/// What phase 1 asks of its caller: hand the finished declaration to the
/// runtime, or first have the static-folder provider declare its copy.
pub enum OutputStep {
    /// The declaration is complete; no provider involvement.
    Ready(ResourceOutput),
    /// Production: the provider must declare the copy of the given folder,
    /// and its manifest completes the declaration through
    /// [`PendingCopy::finish`].
    CopyFolder(PendingCopy),
}

/// The descriptor of the environment-variables resource: which folder of
/// environment files the service ships, which file to load in production,
/// and which (if any) to load locally.
pub struct EnvVars {
    folder: String,
    env_prod: String,
    env_local: Option<String>,
    static_provider: Option<CopyDelegate>,
}

impl EnvVars {
    /// The configured source folder.
    pub closed spec fn spec_folder(&self) -> Seq<char> {
        self.folder@
    }

    /// The configured production file name.
    pub closed spec fn spec_env_prod(&self) -> Seq<char> {
        self.env_prod@
    }

    /// The configured local file name, if any.
    pub closed spec fn spec_env_local(&self) -> Option<Seq<char>> {
        match self.env_local {
            Some(l) => Some(l@),
            None => None,
        }
    }

    /// Well-formed: the copy delegate is still held and is targeted at the
    /// descriptor's own folder. Every constructor establishes this and every
    /// builder method preserves it; phase 1 consumes the descriptor whole.
    pub closed spec fn wf(&self) -> bool {
        self.static_provider matches Some(d) && d.spec_folder() == self.folder@
    }

    /// A descriptor with the default configuration: folder `.env`,
    /// production file `.env`, nothing to load locally.
    pub fn new() -> (r: Self)
        ensures
            r.wf(),
            r.spec_folder() == ".env"@,
            r.spec_env_prod() == ".env"@,
            r.spec_env_local() is None,
    {
        let folder: String = ".env".to_owned();
        let static_provider = CopyDelegate { folder: folder.clone() };
        EnvVars {
            folder,
            env_prod: ".env".to_owned(),
            env_local: None,
            static_provider: Some(static_provider),
        }
    }

    /// Use `folder` as the source folder, retargeting the copy delegate so
    /// the two stay in sync.
    pub fn folder(self, folder: &str) -> (r: Self)
        ensures
            r.spec_folder() == folder@,
            r.spec_env_prod() == self.spec_env_prod(),
            r.spec_env_local() == self.spec_env_local(),
            r.wf(),
    {
        let static_provider = match self.static_provider {
            Some(d) => Some(d.folder(folder)),
            None => Some(CopyDelegate { folder: folder.to_owned() }),
        };
        EnvVars {
            folder: folder.to_owned(),
            env_prod: self.env_prod,
            env_local: self.env_local,
            static_provider,
        }
    }

    /// Use `env_prod` as the file to load in production.
    pub fn env_prod(self, env_prod: &str) -> (r: Self)
        ensures
            r.spec_env_prod() == env_prod@,
            r.spec_folder() == self.spec_folder(),
            r.spec_env_local() == self.spec_env_local(),
            self.wf() ==> r.wf(),
    {
        EnvVars { env_prod: env_prod.to_owned(), ..self }
    }

    /// Use `env_local` as the file to load locally.
    pub fn env_local(self, env_local: &str) -> (r: Self)
        ensures
            r.spec_env_local() == Some(env_local@),
            r.spec_folder() == self.spec_folder(),
            r.spec_env_prod() == self.spec_env_prod(),
            self.wf() ==> r.wf(),
    {
        EnvVars { env_local: Some(env_local.to_owned()), ..self }
    }

    /// The cache-busting configuration key of this resource: its folder.
    pub fn config(&self) -> (r: &String)
        ensures
            r@ == self.spec_folder(),
    {
        &self.folder
    }

    /// The path of the environment file to load: under `output_dir` the
    /// production file, and with no `output_dir` the local file (empty when
    /// none was configured).
    pub fn env_file_path(&self, output_dir: Option<&str>) -> (r: String)
        ensures
            output_dir matches Some(d) ==> r@ == join_path(d@, self.spec_env_prod()),
            output_dir is None ==> (self.spec_env_local() matches Some(l) ==> r@ == l),
            output_dir is None && self.spec_env_local() is None ==> r@ == Seq::<char>::empty(),
    {
        match output_dir {
            Some(dir) => crate::path::join(dir, self.env_prod.as_str()),
            None => match &self.env_local {
                Some(l) => l.clone(),
                None => String::new(),
            },
        }
    }

    /// Load the environment file at `env_file_path`: parse it through the
    /// external parser, then hand its pairs to [`install_pairs`], which
    /// checks each one against what an environment accepts and installs it
    /// into `sink` in file order. An empty path means there is nothing to
    /// load: it is returned as success at once, with no parser call and the
    /// sink untouched. On success the given path is returned.
    pub fn load_env_vars<S: EnvSink>(env_file_path: &str, sink: &mut S) -> (r: Result<
        String,
        EnvError,
    >)
        ensures
            r matches Ok(p) ==> p@ == env_file_path@,
            env_file_path@.len() == 0 ==> (r is Ok && *final(sink) == *old(sink)),
            r matches Err(e) ==> (e.is_parse_failure() ==> *final(sink) == *old(sink)),
    {
        if env_file_path.unicode_len() == 0 {
            return Ok(String::new());
        }
        let pairs = match read_env_file(env_file_path) {
            Ok(pairs) => pairs,
            Err(e) => {
                return Err(EnvError(LoadFailure::Parse(e)));
            },
        };
        match install_pairs(&pairs, sink) {
            Ok(()) => Ok(env_file_path.to_owned()),
            Err(e) => Err(e),
        }
    }

    /// Phase 1: declare what this resource needs in `environment`.
    ///
    /// Anywhere but production the declaration is complete at once, with no
    /// copy manifest and no provider involvement. In production the copy of
    /// the configured folder is delegated to the provider: the descriptor's
    /// delegate is surrendered into the returned step, so the delegation can
    /// happen at most once per descriptor.
    pub fn output(self, environment: Environment) -> (r: OutputStep)
        requires
            self.wf(),
        ensures
            environment is Local ==> (r matches OutputStep::Ready(out)
                && out.spec_paths() is None
                && out.spec_env_prod() == self.spec_env_prod()
                && (self.spec_env_local() matches Some(l) ==> out.spec_env_local() == l)
                && (self.spec_env_local() is None
                    ==> out.spec_env_local() == Seq::<char>::empty())),
            environment is Production ==> (r matches OutputStep::CopyFolder(pc)
                && pc.spec_folder() == self.spec_folder()
                && pc.spec_env_prod() == self.spec_env_prod()
                && pc.spec_env_local() == self.spec_env_local()),
    {
        let is_production = match environment {
            Environment::Production => true,
            Environment::Local => false,
        };
        if !is_production {
            let env_local: Option<&str> = match &self.env_local {
                Some(l) => Some(l.as_str()),
                None => None,
            };
            let resource = ResourceOutput::new(None, env_local, self.env_prod.as_str());
            return OutputStep::Ready(resource);
        }
        match self.static_provider {
            Some(delegate) => OutputStep::CopyFolder(PendingCopy {
                delegate,
                env_prod: self.env_prod,
                env_local: self.env_local,
            }),
            None => unreached(),
        }
    }

    /// Phase 2: resolve the environment-file path and load it.
    ///
    /// `copied_dir` is the output directory the provider's copy produced; it
    /// must be supplied whenever the declaration holds a copy manifest. The
    /// resolved path is the production file under `copied_dir`, or the
    /// declared local file; an empty path is returned as success with
    /// nothing loaded, and any load failure is fatal. What loading installs
    /// goes into `sink`.
    pub fn build<S: EnvSink>(
        build_data: &ResourceOutput,
        copied_dir: Option<&str>,
        sink: &mut S,
    ) -> (r: Result<String, EnvError>)
        requires
            build_data.has_paths() ==> copied_dir is Some,
        ensures
            copied_dir matches Some(d) ==> (r matches Ok(p) ==> p@ == join_path(
                d@,
                build_data.spec_env_prod(),
            )),
            copied_dir is None ==> (r matches Ok(p) ==> p@ == build_data.spec_env_local()),
            copied_dir is None && build_data.spec_env_local().len() == 0 ==> (r matches Ok(p)
                && p@.len() == 0 && *final(sink) == *old(sink)),
            r matches Err(e) ==> (e.is_parse_failure() ==> *final(sink) == *old(sink)),
    {
        let env_file_path = build_data.env_file_path(copied_dir);
        match Self::load_env_vars(env_file_path.as_str(), sink) {
            Ok(_) => Ok(env_file_path),
            Err(e) => Err(e),
        }
    }
}

} // verus!
