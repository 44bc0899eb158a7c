//! The build configuration and its validation.
use vstd::prelude::*;
use crate::text::owned;

verus! {

/// The validated build configuration.
///
/// At most one of the inline Nix configuration and the path of a Nix
/// configuration file is set: no value of this type holds both.
pub struct Configuration {
    output_path: Option<String>,
    output_format: String,
    nix_configuration_path: Option<String>,
    nix_configuration: Option<String>,
}

/// The failure of loading a configuration.
pub struct Error {
    pub message: String,
}

impl Error {
    /// An error with the given message.
    pub fn new(message: &str) -> (r: Error)
        ensures
            r.message@ == message@,
    {
        Error { message: owned(message) }
    }

    /// The message of the error.
    pub fn message(&self) -> (r: String)
        ensures
            r@ == self.message@,
    {
        owned(self.message.as_str())
    }
}

/// The views of an optional string.
pub open spec fn opt_view(o: Option<String>) -> Option<Seq<char>> {
    match o {
        Some(s) => Some(s@),
        None => None,
    }
}

fn clone_opt(o: &Option<String>) -> (r: Option<String>)
    ensures
        opt_view(r) == opt_view(*o),
{
    match o {
        Some(s) => Some(owned(s.as_str())),
        None => None,
    }
}

impl Configuration {
    #[verifier::type_invariant]
    spec fn inv(self) -> bool {
        !(self.nix_configuration is Some && self.nix_configuration_path is Some)
    }

    /// Where the image is copied to, if configured.
    pub closed spec fn spec_output_path(self) -> Option<Seq<char>> {
        opt_view(self.output_path)
    }

    /// The image format handed to the image generator.
    pub closed spec fn spec_output_format(self) -> Seq<char> {
        self.output_format@
    }

    /// The path of a Nix configuration file to stage, if configured.
    pub closed spec fn spec_nix_configuration_path(self) -> Option<Seq<char>> {
        opt_view(self.nix_configuration_path)
    }

    /// The inline Nix configuration to stage, if configured.
    pub closed spec fn spec_nix_configuration(self) -> Option<Seq<char>> {
        opt_view(self.nix_configuration)
    }

    /// Whether a Nix configuration is staged into the build root.
    pub open spec fn spec_has_nix_configuration(self) -> bool {
        self.spec_nix_configuration() is Some || self.spec_nix_configuration_path() is Some
    }

    /// Validates the options of a configuration document: the inline Nix
    /// configuration and the path of a Nix configuration file exclude each
    /// other, and a document that sets both is rejected.
    pub fn load(
        output_path: Option<String>,
        output_format: String,
        nix_configuration_path: Option<String>,
        nix_configuration: Option<String>,
    ) -> (r: Result<Configuration, Error>)
        ensures
            r is Err <==> (nix_configuration is Some && nix_configuration_path is Some),
            r is Err ==> r->Err_0.message@
                == "Configuration file contains both `nix_configuration` and `nix_configuration_path` options"@,
            r is Ok ==> {
                let c = r->Ok_0;
                &&& c.spec_output_path() == opt_view(output_path)
                &&& c.spec_output_format() == output_format@
                &&& c.spec_nix_configuration_path() == opt_view(nix_configuration_path)
                &&& c.spec_nix_configuration() == opt_view(nix_configuration)
            },
    {
        if nix_configuration.is_some() && nix_configuration_path.is_some() {
            return Err(
                Error::new(
                    "Configuration file contains both `nix_configuration` and `nix_configuration_path` options",
                ),
            );
        }
        Ok(Configuration { output_path, output_format, nix_configuration_path, nix_configuration })
    }

    /// Where the image is copied to, if configured.
    pub fn output_path(&self) -> (r: Option<String>)
        ensures
            opt_view(r) == self.spec_output_path(),
    {
        clone_opt(&self.output_path)
    }

    /// The image format handed to the image generator.
    pub fn output_format(&self) -> (r: String)
        ensures
            r@ == self.spec_output_format(),
    {
        owned(self.output_format.as_str())
    }

    /// The path of a Nix configuration file to stage, if configured.
    pub fn nix_configuration_path(&self) -> (r: Option<String>)
        ensures
            opt_view(r) == self.spec_nix_configuration_path(),
            !(self.spec_nix_configuration() is Some && self.spec_nix_configuration_path() is Some),
    {
        proof {
            use_type_invariant(self);
        }
        clone_opt(&self.nix_configuration_path)
    }

    /// The inline Nix configuration to stage, if configured.
    pub fn nix_configuration(&self) -> (r: Option<String>)
        ensures
            opt_view(r) == self.spec_nix_configuration(),
            !(self.spec_nix_configuration() is Some && self.spec_nix_configuration_path() is Some),
    {
        proof {
            use_type_invariant(self);
        }
        clone_opt(&self.nix_configuration)
    }

    /// Whether a Nix configuration, inline or as a file, is configured.
    pub fn has_nix_configuration(&self) -> (r: bool)
        ensures
            r == self.spec_has_nix_configuration(),
    {
        self.nix_configuration.is_some() || self.nix_configuration_path.is_some()
    }
}

} // verus!
