//! Declarations of loaders.

use vstd::prelude::*;
use crate::text::str_eq;

verus! {

/// What is wrong with the declaration of a loader.
#[derive(Debug, PartialEq, Eq)]
pub enum LoaderMacroError {
    /// The kind names no built-in loader.
    UnknownLoader(String),
    /// The declaration could not be read, or says too much or too little.
    ParseError(String),
    /// An argument that the loader does not take: the argument and the
    /// loader.
    UnsupportedArgument(String, String),
    /// An argument that the loader needs is missing: the argument and the
    /// loader.
    MissingArgument(String, String),
}

/// The model of a [`LoaderMacroError`].
pub enum LoaderMacroErrorView {
    UnknownLoader(Seq<char>),
    ParseError(Seq<char>),
    UnsupportedArgument(Seq<char>, Seq<char>),
    MissingArgument(Seq<char>, Seq<char>),
}

impl View for LoaderMacroError {
    type V = LoaderMacroErrorView;

    open spec fn view(&self) -> LoaderMacroErrorView {
        match self {
            LoaderMacroError::UnknownLoader(k) => LoaderMacroErrorView::UnknownLoader(k@),
            LoaderMacroError::ParseError(m) => LoaderMacroErrorView::ParseError(m@),
            LoaderMacroError::UnsupportedArgument(a, l) => LoaderMacroErrorView::UnsupportedArgument(
                a@,
                l@,
            ),
            LoaderMacroError::MissingArgument(a, l) => LoaderMacroErrorView::MissingArgument(
                a@,
                l@,
            ),
        }
    }
}

/// The built-in loaders.
#[derive(Debug, Clone, Copy, PartialEq, Eq)]
pub enum BuiltinLoaderType {
    FileOnceLoader,
    FileUpdatingLoader,
}

/// The built-in loader that a kind names.
pub open spec fn spec_builtin(kind: Seq<char>) -> Option<BuiltinLoaderType> {
    if kind == "FileOnceLoader"@ {
        Some(BuiltinLoaderType::FileOnceLoader)
    } else if kind == "FileUpdatingLoader"@ {
        Some(BuiltinLoaderType::FileUpdatingLoader)
    } else {
        None
    }
}

/// Whether `name` is among `names`.
pub open spec fn spec_among(names: Seq<&'static str>, name: Seq<char>) -> bool {
    exists|i: int| 0 <= i < names.len() && (#[trigger] names[i])@ == name
}

/// Whether `name` is among `names`.
pub fn among(names: &Vec<&'static str>, name: &str) -> (r: bool)
    ensures
        r == spec_among(names@, name@),
{
    let mut i: usize = 0;
    while i < names.len()
        invariant
            i <= names@.len(),
            forall|j: int| 0 <= j < i ==> (#[trigger] names@[j])@ != name@,
        decreases names@.len() - i,
    {
        if str_eq(names[i], name) {
            return true;
        }
        i += 1;
    }
    false
}

impl BuiltinLoaderType {
    /// The arguments that every built-in loader needs and takes.
    pub open spec fn spec_args() -> Seq<Seq<char>> {
        seq!["path"@]
    }

    /// The path of the loader in generated code.
    pub open spec fn spec_path(self) -> Seq<char> {
        match self {
            BuiltinLoaderType::FileOnceLoader => "seedframe::loader::builtins::file_loaders::file_once_loader::FileOnceLoader"@,
            BuiltinLoaderType::FileUpdatingLoader => "seedframe::loader::builtins::file_loaders::file_updating_loader::FileUpdatingLoader"@,
        }
    }

    /// The built-in loader that a kind names. Fails with `UnknownLoader`,
    /// which carries the kind, for every other name.
    pub fn from_str(kind: &str) -> (r: Result<Self, LoaderMacroError>)
        ensures
            match r {
                Ok(loader) => spec_builtin(kind@) == Some(loader),
                Err(e) => spec_builtin(kind@) is None && e@ == LoaderMacroErrorView::UnknownLoader(
                    kind@,
                ),
            },
    {
        if str_eq(kind, "FileOnceLoader") {
            Ok(Self::FileOnceLoader)
        } else if str_eq(kind, "FileUpdatingLoader") {
            Ok(Self::FileUpdatingLoader)
        } else {
            Err(LoaderMacroError::UnknownLoader(String::from_str(kind)))
        }
    }

    /// The arguments that the loader needs.
    pub fn required_args(&self) -> (r: Vec<&'static str>)
        ensures
            r@.len() == 1,
            r@[0]@ == "path"@,
    {
        match self {
            Self::FileOnceLoader | Self::FileUpdatingLoader => {
                let mut args: Vec<&'static str> = Vec::new();
                args.push("path");
                args
            },
        }
    }

    /// The arguments that the loader takes.
    pub fn supported_args(&self) -> (r: Vec<&'static str>)
        ensures
            r@.len() == 1,
            r@[0]@ == "path"@,
    {
        match self {
            Self::FileOnceLoader | Self::FileUpdatingLoader => {
                let mut args: Vec<&'static str> = Vec::new();
                args.push("path");
                args
            },
        }
    }

    /// The path of the loader in generated code.
    pub fn path(&self) -> (r: &'static str)
        ensures
            r@ == self.spec_path(),
    {
        match self {
            Self::FileOnceLoader => "seedframe::loader::builtins::file_loaders::file_once_loader::FileOnceLoader",
            Self::FileUpdatingLoader => "seedframe::loader::builtins::file_loaders::file_updating_loader::FileUpdatingLoader",
        }
    }
}

/// What the declaration of a loader says.
#[derive(Debug, PartialEq, Eq)]
pub struct LoaderConfig {
    /// The name of a built-in loader.
    pub kind: Option<String>,
    /// The files to load.
    pub path: Option<String>,
    /// The type of a loader that is not built in.
    pub external: Option<String>,
    /// The configuration of a loader that is not built in, as JSON text.
    pub config: Option<String>,
}

/// The loader that a declaration asks for.
#[derive(Debug, PartialEq, Eq)]
pub enum LoaderType {
    /// A built-in loader, by its path.
    BuiltIn(String),
    /// A loader that is not built in, by its type.
    External(String),
}

/// What is wrong with a declaration, if anything.
///
/// A declaration names a built-in loader or one that is not built in, and
/// not both. A built-in loader is named by a known kind and is given its
/// path; a loader that is not built in is given none.
pub open spec fn spec_validate(
    kind: Option<Seq<char>>,
    path: bool,
    external: bool,
) -> Option<LoaderMacroErrorView> {
    if kind is Some && external {
        Some(
            LoaderMacroErrorView::ParseError(
                "Only one of the attributes `kind` or `external` is supported!"@,
            ),
        )
    } else if kind is None && !external {
        Some(
            LoaderMacroErrorView::ParseError(
                "Macro expects one of `kind` or `external` attributes to be specified!"@,
            ),
        )
    } else {
        match kind {
            Some(name) => match spec_builtin(name) {
                None => Some(LoaderMacroErrorView::UnknownLoader(name)),
                Some(loader) => if !path {
                    Some(LoaderMacroErrorView::MissingArgument("path"@, loader.spec_path()))
                } else {
                    None
                },
            },
            None => if path {
                Some(LoaderMacroErrorView::UnsupportedArgument("path"@, "external"@))
            } else {
                None
            },
        }
    }
}

/// The model of an optional text.
pub open spec fn opt_text(text: Option<String>) -> Option<Seq<char>> {
    match text {
        Some(t) => Some(t@),
        None => None,
    }
}

/// Checks what a declaration says.
pub fn validate_config(config: &LoaderConfig) -> (r: Result<(), LoaderMacroError>)
    ensures
        match r {
            Ok(()) => spec_validate(
                opt_text(config.kind),
                config.path is Some,
                config.external is Some,
            ) is None,
            Err(e) => spec_validate(
                opt_text(config.kind),
                config.path is Some,
                config.external is Some,
            ) == Some(e@),
        },
{
    if config.kind.is_some() && config.external.is_some() {
        return Err(
            LoaderMacroError::ParseError(
                String::from_str("Only one of the attributes `kind` or `external` is supported!"),
            ),
        );
    }
    if config.kind.is_none() && config.external.is_none() {
        return Err(
            LoaderMacroError::ParseError(
                String::from_str(
                    "Macro expects one of `kind` or `external` attributes to be specified!",
                ),
            ),
        );
    }
    match &config.kind {
        Some(kind) => {
            let loader_type = match BuiltinLoaderType::from_str(kind.as_str()) {
                Ok(loader) => loader,
                Err(e) => {
                    return Err(e);
                },
            };
            let required = loader_type.required_args();
            let supported = loader_type.supported_args();
            proof {
                assert(required@[0]@ == "path"@);
                assert(supported@[0]@ == "path"@);
            }
            if config.path.is_none() && among(&required, "path") {
                Err(
                    LoaderMacroError::MissingArgument(
                        String::from_str("path"),
                        String::from_str(loader_type.path()),
                    ),
                )
            } else if config.path.is_some() && !among(&supported, "path") {
                Err(
                    LoaderMacroError::UnsupportedArgument(
                        String::from_str("path"),
                        String::from_str(loader_type.path()),
                    ),
                )
            } else {
                Ok(())
            }
        },
        None => {
            if config.path.is_some() {
                Err(
                    LoaderMacroError::UnsupportedArgument(
                        String::from_str("path"),
                        String::from_str("external"),
                    ),
                )
            } else {
                Ok(())
            }
        },
    }
}

/// The loader that a declaration asks for: the built-in one that its kind
/// names, else the one that is not built in.
pub fn get_type(config: &LoaderConfig) -> (r: Result<LoaderType, LoaderMacroError>)
    requires
        config.kind is Some || config.external is Some,
    ensures
        match config.kind {
            Some(kind) => match spec_builtin(kind@) {
                Some(loader) => (r matches Ok(LoaderType::BuiltIn(path)) && path@
                    == loader.spec_path()),
                None => (r matches Err(e) && e@ == LoaderMacroErrorView::UnknownLoader(kind@)),
            },
            None => (r matches Ok(LoaderType::External(t)) && t@ == config.external->0@),
        },
{
    match &config.kind {
        Some(kind) => match BuiltinLoaderType::from_str(kind.as_str()) {
            Ok(loader) => Ok(LoaderType::BuiltIn(String::from_str(loader.path()))),
            Err(e) => Err(e),
        },
        None => match &config.external {
            Some(t) => Ok(LoaderType::External(t.clone())),
            None => Ok(LoaderType::External(String::new())),
        },
    }
}

} // verus!
