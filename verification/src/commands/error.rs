//! Why a client command failed before or at the control server.

use vstd::prelude::*;
use vstd::string::StringExecFns;
use crate::api;

verus! {

/// Why a client command failed.
#[derive(Clone, Debug, PartialEq, Eq)]
pub enum Error {
    /// A VM configuration for the container is already on disk.
    VmConfigAlreadyExists,
    /// The bundle holds no `config.json`.
    ContainerConfigDoesNotExist,
    /// The container's configuration names no root file system.
    RootfsPathIsNotSpecified,
    /// A rootless container was asked for.
    RootlessNotSupported,
    /// The control server refused or failed the operation.
    Api(api::Error),
}

/// An [`Error`] as a mathematical value.
pub enum ErrorView {
    VmConfigAlreadyExists,
    ContainerConfigDoesNotExist,
    RootfsPathIsNotSpecified,
    RootlessNotSupported,
    Api(api::ErrorView),
}

impl View for Error {
    type V = ErrorView;

    open spec fn view(&self) -> ErrorView {
        match self {
            Error::VmConfigAlreadyExists => ErrorView::VmConfigAlreadyExists,
            Error::ContainerConfigDoesNotExist => ErrorView::ContainerConfigDoesNotExist,
            Error::RootfsPathIsNotSpecified => ErrorView::RootfsPathIsNotSpecified,
            Error::RootlessNotSupported => ErrorView::RootlessNotSupported,
            Error::Api(e) => ErrorView::Api(e@),
        }
    }
}

impl ErrorView {
    /// The text that describes the error to a person.
    pub open spec fn message(self) -> Seq<char> {
        match self {
            ErrorView::VmConfigAlreadyExists => "VM configuration already exists"@,
            ErrorView::ContainerConfigDoesNotExist => "Container configuration does not exist"@,
            ErrorView::RootfsPathIsNotSpecified => "Root path is not specified"@,
            ErrorView::RootlessNotSupported => "Rootless containers are not supported"@,
            ErrorView::Api(e) => e.message(),
        }
    }
}

impl Error {
    /// Returns the text that describes the error to a person. An error of
    /// the control server reads as the server words it.
    pub fn message(&self) -> (text: String)
        ensures
            text@ == self@.message(),
    {
        match self {
            Error::VmConfigAlreadyExists => String::from_str("VM configuration already exists"),
            Error::ContainerConfigDoesNotExist => String::from_str(
                "Container configuration does not exist",
            ),
            Error::RootfsPathIsNotSpecified => String::from_str("Root path is not specified"),
            Error::RootlessNotSupported => String::from_str(
                "Rootless containers are not supported",
            ),
            Error::Api(e) => e.message(),
        }
    }
}

} // verus!
