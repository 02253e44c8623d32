//! Typed error taxonomy, and the mapping from host exception names onto it.
//!
//! The host reports failures as exception values carrying a name. The
//! functions here translate those names into the library's own [`Error`]
//! variants, one translation per kind of request, exactly as the binding
//! needs them. Names whose arrival would be a programming error (for
//! example a request failing because its transaction already went
//! inactive) are excluded by `requires`: the caller must test for them
//! and treat them as fatal before translating.

use vstd::prelude::*;

verus! {

/// The name carried by a host exception, as the binding reads it.
#[derive(Clone, Copy, Debug, PartialEq, Eq, Structural)]
pub enum HostErrorName {
    /// `NotSupportedError`
    NotSupported,
    /// `NotAllowedError`
    NotAllowed,
    /// `VersionError`
    Version,
    /// `ReadOnlyError`
    ReadOnly,
    /// `TransactionInactiveError`
    TransactionInactive,
    /// `DataError`
    Data,
    /// `InvalidStateError`
    InvalidState,
    /// `DataCloneError`
    DataClone,
    /// `ConstraintError`
    Constraint,
    /// `NotFoundError`
    NotFound,
    /// `InvalidAccessError`
    InvalidAccess,
    /// `SyntaxError`
    Syntax,
    /// `AbortError`
    Abort,
    /// A name the binding does not recognize
    Unknown,
}

/// A host error value as it reaches the binding: a host exception with a
/// name, a type error, or some other value entirely.
#[derive(Clone, Copy, Debug, PartialEq, Eq, Structural)]
pub enum HostException {
    /// A host exception carrying a [`HostErrorName`]
    Dom(HostErrorName),
    /// A host type error (for example, advancing a cursor by zero)
    TypeErr,
    /// Any other host value
    Other,
}

/// Error type for all errors from this crate
#[derive(Clone, Copy, Debug, PartialEq, Eq, Structural)]
pub enum Error {
    /// Not running in a browser window
    NotInBrowser,
    /// The host store capability is disabled
    IndexedDbDisabled,
    /// Operation is not supported by the browser
    OperationNotSupported,
    /// Operation is not allowed by the user agent
    OperationNotAllowed,
    /// Provided key is not valid
    InvalidKey,
    /// Version must not be zero
    VersionMustNotBeZero,
    /// Requested version is older than existing version
    VersionTooOld,
    /// The requested function cannot be called from this context
    InvalidCall,
    /// The provided arguments are invalid
    InvalidArgument,
    /// Cannot create something that already exists
    AlreadyExists,
    /// Cannot change something that does not exists
    DoesNotExist,
    /// Database is closed
    DatabaseIsClosed,
    /// Object store was removed
    ObjectStoreWasRemoved,
    /// Transaction is read-only
    ReadOnly,
    /// Unable to clone
    FailedClone,
    /// Invalid range
    InvalidRange,
    /// Cursor finished its range
    CursorCompleted,
}

/// Type alias for convenience
pub type Result<T> = core::result::Result<T, Error>;

impl Error {
    /// A short description of the error, in words.
    pub fn message(&self) -> (r: &'static str) {
        match self {
            Error::NotInBrowser => "Not running in a browser window",
            Error::IndexedDbDisabled => "IndexedDB is disabled",
            Error::OperationNotSupported => "Operation is not supported by the browser",
            Error::OperationNotAllowed => "Operation is not allowed by the user agent",
            Error::InvalidKey => "Provided key is not valid",
            Error::VersionMustNotBeZero => "Version must not be zero",
            Error::VersionTooOld => "Requested version is older than existing version",
            Error::InvalidCall => "The requested function cannot be called from this context",
            Error::InvalidArgument => "The provided arguments are invalid",
            Error::AlreadyExists => "Cannot create something that already exists",
            Error::DoesNotExist => "Cannot change something that does not exists",
            Error::DatabaseIsClosed => "Database is closed",
            Error::ObjectStoreWasRemoved => "Object store was removed",
            Error::ReadOnly => "Transaction is read-only",
            Error::FailedClone => "Unable to clone",
            Error::InvalidRange => "Invalid range",
            Error::CursorCompleted => "Cursor finished its range",
        }
    }
}

/// The name of a host exception, or `None` for any other host value.
pub fn dom_name(v: &HostException) -> (r: Option<HostErrorName>)
    ensures
        r == (match v {
            HostException::Dom(n) => Some(*n),
            _ => None::<HostErrorName>,
        }),
{
    match v {
        HostException::Dom(n) => Some(*n),
        _ => None,
    }
}

/// True when a host exception carries one of the three names that the
/// general translation [`from_dom_exception`] understands.
pub open spec fn general_dom_error(v: HostException) -> bool {
    ||| v == HostException::Dom(HostErrorName::NotSupported)
    ||| v == HostException::Dom(HostErrorName::NotAllowed)
    ||| v == HostException::Dom(HostErrorName::Version)
}

/// What [`from_dom_exception`] returns on the names it understands.
pub open spec fn general_dom_error_of(v: HostException) -> Error
    recommends
        general_dom_error(v),
{
    if v == HostException::Dom(HostErrorName::NotSupported) {
        Error::OperationNotSupported
    } else if v == HostException::Dom(HostErrorName::NotAllowed) {
        Error::OperationNotAllowed
    } else {
        Error::VersionTooOld
    }
}

/// Translate a host exception name with no request-specific handling.
/// Any name outside the three handled ones is a programming error and is
/// excluded by `requires`.
pub fn from_dom_exception(name: HostErrorName) -> (e: Error)
    requires
        general_dom_error(HostException::Dom(name)),
    ensures
        e == general_dom_error_of(HostException::Dom(name)),
{
    match name {
        HostErrorName::NotSupported => Error::OperationNotSupported,
        HostErrorName::NotAllowed => Error::OperationNotAllowed,
        _ => Error::VersionTooOld,
    }
}

/// Translate a host error value with no request-specific handling. A
/// value that is not a host exception with one of the three general
/// names is a programming error and is excluded by `requires`.
pub fn from_js_value(v: HostException) -> (e: Error)
    requires
        general_dom_error(v),
    ensures
        e == general_dom_error_of(v),
{
    match v {
        HostException::Dom(name) => from_dom_exception(name),
        _ => Error::VersionTooOld,  // excluded by the requires
    }
}

/// Shorthand for a host exception with the given name.
pub open spec fn dom(n: HostErrorName) -> HostException {
    HostException::Dom(n)
}

/// Translate the failure of an add or put request. An inactive
/// transaction is a programming error and is excluded by `requires`.
pub fn map_add_err(err: HostException) -> (e: Error)
    requires
        ({
            ||| err == dom(HostErrorName::ReadOnly)
            ||| err == dom(HostErrorName::Data)
            ||| err == dom(HostErrorName::InvalidState)
            ||| err == dom(HostErrorName::DataClone)
            ||| err == dom(HostErrorName::Constraint)
            ||| general_dom_error(err)
        }),
    ensures
        err == dom(HostErrorName::ReadOnly) ==> e == Error::ReadOnly,
        err == dom(HostErrorName::Data) ==> e == Error::InvalidKey,
        err == dom(HostErrorName::InvalidState) ==> e == Error::ObjectStoreWasRemoved,
        err == dom(HostErrorName::DataClone) ==> e == Error::FailedClone,
        err == dom(HostErrorName::Constraint) ==> e == Error::AlreadyExists,
        general_dom_error(err) ==> e == general_dom_error_of(err),
{
    match err {
        HostException::Dom(HostErrorName::ReadOnly) => Error::ReadOnly,
        HostException::Dom(HostErrorName::Data) => Error::InvalidKey,
        HostException::Dom(HostErrorName::InvalidState) => Error::ObjectStoreWasRemoved,
        HostException::Dom(HostErrorName::DataClone) => Error::FailedClone,
        HostException::Dom(HostErrorName::Constraint) => Error::AlreadyExists,
        _ => from_js_value(err),
    }
}

/// Translate the failure of a clear request. An inactive transaction is
/// a programming error and is excluded by `requires`.
pub fn map_clear_err(err: HostException) -> (e: Error)
    requires
        ({
            ||| err == dom(HostErrorName::ReadOnly)
            ||| err == dom(HostErrorName::InvalidState)
            ||| general_dom_error(err)
        }),
    ensures
        err == dom(HostErrorName::ReadOnly) ==> e == Error::ReadOnly,
        err == dom(HostErrorName::InvalidState) ==> e == Error::ObjectStoreWasRemoved,
        general_dom_error(err) ==> e == general_dom_error_of(err),
{
    match err {
        HostException::Dom(HostErrorName::ReadOnly) => Error::ReadOnly,
        HostException::Dom(HostErrorName::InvalidState) => Error::ObjectStoreWasRemoved,
        _ => from_js_value(err),
    }
}

/// Translate the failure of a count request. An inactive transaction is
/// a programming error and is excluded by `requires`.
pub fn map_count_err(err: HostException) -> (e: Error)
    requires
        ({
            ||| err == dom(HostErrorName::InvalidState)
            ||| err == dom(HostErrorName::Data)
            ||| general_dom_error(err)
        }),
    ensures
        err == dom(HostErrorName::InvalidState) ==> e == Error::ObjectStoreWasRemoved,
        err == dom(HostErrorName::Data) ==> e == Error::InvalidKey,
        general_dom_error(err) ==> e == general_dom_error_of(err),
{
    match err {
        HostException::Dom(HostErrorName::InvalidState) => Error::ObjectStoreWasRemoved,
        HostException::Dom(HostErrorName::Data) => Error::InvalidKey,
        _ => from_js_value(err),
    }
}

/// Translate the failure of a delete request. An inactive transaction is
/// a programming error and is excluded by `requires`.
pub fn map_delete_err(err: HostException) -> (e: Error)
    requires
        ({
            ||| err == dom(HostErrorName::ReadOnly)
            ||| err == dom(HostErrorName::InvalidState)
            ||| err == dom(HostErrorName::Data)
            ||| general_dom_error(err)
        }),
    ensures
        err == dom(HostErrorName::ReadOnly) ==> e == Error::ReadOnly,
        err == dom(HostErrorName::InvalidState) ==> e == Error::ObjectStoreWasRemoved,
        err == dom(HostErrorName::Data) ==> e == Error::InvalidKey,
        general_dom_error(err) ==> e == general_dom_error_of(err),
{
    match err {
        HostException::Dom(HostErrorName::ReadOnly) => Error::ReadOnly,
        HostException::Dom(HostErrorName::InvalidState) => Error::ObjectStoreWasRemoved,
        HostException::Dom(HostErrorName::Data) => Error::InvalidKey,
        _ => from_js_value(err),
    }
}

/// Translate the failure of a get request. An inactive transaction is a
/// programming error and is excluded by `requires`.
pub fn map_get_err(err: HostException) -> (e: Error)
    requires
        ({
            ||| err == dom(HostErrorName::InvalidState)
            ||| err == dom(HostErrorName::Data)
            ||| general_dom_error(err)
        }),
    ensures
        err == dom(HostErrorName::InvalidState) ==> e == Error::ObjectStoreWasRemoved,
        err == dom(HostErrorName::Data) ==> e == Error::InvalidKey,
        general_dom_error(err) ==> e == general_dom_error_of(err),
{
    match err {
        HostException::Dom(HostErrorName::InvalidState) => Error::ObjectStoreWasRemoved,
        HostException::Dom(HostErrorName::Data) => Error::InvalidKey,
        _ => from_js_value(err),
    }
}

/// Translate the failure of a cursor-opening request. An inactive
/// transaction is a programming error and is excluded by `requires`.
pub fn map_open_cursor_err(err: HostException) -> (e: Error)
    requires
        ({
            ||| err == dom(HostErrorName::InvalidState)
            ||| err == dom(HostErrorName::Data)
            ||| general_dom_error(err)
        }),
    ensures
        err == dom(HostErrorName::InvalidState) ==> e == Error::ObjectStoreWasRemoved,
        err == dom(HostErrorName::Data) ==> e == Error::InvalidKey,
        general_dom_error(err) ==> e == general_dom_error_of(err),
{
    match err {
        HostException::Dom(HostErrorName::InvalidState) => Error::ObjectStoreWasRemoved,
        HostException::Dom(HostErrorName::Data) => Error::InvalidKey,
        _ => from_js_value(err),
    }
}

/// Translate the failure of a cursor advance. A host type error means
/// the advance count was zero. An inactive transaction is a programming
/// error and is excluded by `requires`.
pub fn map_cursor_advance_err(err: HostException) -> (e: Error)
    requires
        ({
            ||| err == dom(HostErrorName::InvalidState)
            ||| err == HostException::TypeErr
            ||| general_dom_error(err)
        }),
    ensures
        err == dom(HostErrorName::InvalidState) ==> e == Error::CursorCompleted,
        err == HostException::TypeErr ==> e == Error::InvalidArgument,
        general_dom_error(err) ==> e == general_dom_error_of(err),
{
    match err {
        HostException::Dom(HostErrorName::InvalidState) => Error::CursorCompleted,
        HostException::TypeErr => Error::InvalidArgument,
        _ => from_js_value(err),
    }
}

/// Translate the failure of a cursor advance towards a key. An inactive
/// transaction is a programming error and is excluded by `requires`.
pub fn map_cursor_advance_until_err(err: HostException) -> (e: Error)
    requires
        ({
            ||| err == dom(HostErrorName::InvalidState)
            ||| err == dom(HostErrorName::Data)
            ||| general_dom_error(err)
        }),
    ensures
        err == dom(HostErrorName::InvalidState) ==> e == Error::CursorCompleted,
        err == dom(HostErrorName::Data) ==> e == Error::InvalidKey,
        general_dom_error(err) ==> e == general_dom_error_of(err),
{
    match err {
        HostException::Dom(HostErrorName::InvalidState) => Error::CursorCompleted,
        HostException::Dom(HostErrorName::Data) => Error::InvalidKey,
        _ => from_js_value(err),
    }
}

/// Translate the failure of a cursor advance towards a primary key. An
/// inactive transaction is a programming error and is excluded by
/// `requires`.
pub fn map_cursor_advance_until_primary_key_err(err: HostException) -> (e: Error)
    requires
        ({
            ||| err == dom(HostErrorName::InvalidState)
            ||| err == dom(HostErrorName::Data)
            ||| err == dom(HostErrorName::InvalidAccess)
            ||| general_dom_error(err)
        }),
    ensures
        err == dom(HostErrorName::InvalidState) ==> e == Error::CursorCompleted,
        err == dom(HostErrorName::Data) ==> e == Error::InvalidKey,
        err == dom(HostErrorName::InvalidAccess) ==> e == Error::InvalidArgument,
        general_dom_error(err) ==> e == general_dom_error_of(err),
{
    match err {
        HostException::Dom(HostErrorName::InvalidState) => Error::CursorCompleted,
        HostException::Dom(HostErrorName::Data) => Error::InvalidKey,
        HostException::Dom(HostErrorName::InvalidAccess) => Error::InvalidArgument,
        _ => from_js_value(err),
    }
}

/// Translate the failure of a cursor delete. An inactive transaction is
/// a programming error and is excluded by `requires`.
pub fn map_cursor_delete_err(err: HostException) -> (e: Error)
    requires
        ({
            ||| err == dom(HostErrorName::InvalidState)
            ||| err == dom(HostErrorName::ReadOnly)
            ||| general_dom_error(err)
        }),
    ensures
        err == dom(HostErrorName::InvalidState) ==> e == Error::CursorCompleted,
        err == dom(HostErrorName::ReadOnly) ==> e == Error::ReadOnly,
        general_dom_error(err) ==> e == general_dom_error_of(err),
{
    match err {
        HostException::Dom(HostErrorName::InvalidState) => Error::CursorCompleted,
        HostException::Dom(HostErrorName::ReadOnly) => Error::ReadOnly,
        _ => from_js_value(err),
    }
}

/// Translate the failure of a cursor update. An inactive transaction is
/// a programming error and is excluded by `requires`.
pub fn map_cursor_update_err(err: HostException) -> (e: Error)
    requires
        ({
            ||| err == dom(HostErrorName::InvalidState)
            ||| err == dom(HostErrorName::ReadOnly)
            ||| err == dom(HostErrorName::Data)
            ||| err == dom(HostErrorName::DataClone)
            ||| general_dom_error(err)
        }),
    ensures
        err == dom(HostErrorName::InvalidState) ==> e == Error::CursorCompleted,
        err == dom(HostErrorName::ReadOnly) ==> e == Error::ReadOnly,
        err == dom(HostErrorName::Data) ==> e == Error::InvalidKey,
        err == dom(HostErrorName::DataClone) ==> e == Error::FailedClone,
        general_dom_error(err) ==> e == general_dom_error_of(err),
{
    match err {
        HostException::Dom(HostErrorName::InvalidState) => Error::CursorCompleted,
        HostException::Dom(HostErrorName::ReadOnly) => Error::ReadOnly,
        HostException::Dom(HostErrorName::Data) => Error::InvalidKey,
        HostException::Dom(HostErrorName::DataClone) => Error::FailedClone,
        _ => from_js_value(err),
    }
}

/// Translate the failure of beginning a transaction.
pub fn map_begin_transaction_err(err: HostException) -> (e: Error)
    requires
        ({
            ||| err == dom(HostErrorName::InvalidState)
            ||| err == dom(HostErrorName::NotFound)
            ||| err == dom(HostErrorName::InvalidAccess)
            ||| general_dom_error(err)
        }),
    ensures
        err == dom(HostErrorName::InvalidState) ==> e == Error::DatabaseIsClosed,
        err == dom(HostErrorName::NotFound) ==> e == Error::DoesNotExist,
        err == dom(HostErrorName::InvalidAccess) ==> e == Error::InvalidArgument,
        general_dom_error(err) ==> e == general_dom_error_of(err),
{
    match err {
        HostException::Dom(HostErrorName::InvalidState) => Error::DatabaseIsClosed,
        HostException::Dom(HostErrorName::NotFound) => Error::DoesNotExist,
        HostException::Dom(HostErrorName::InvalidAccess) => Error::InvalidArgument,
        _ => from_js_value(err),
    }
}

/// Translate the failure of looking an object store up in a transaction.
pub fn map_object_store_err(err: HostException) -> (e: Error)
    requires
        ({
            ||| err == dom(HostErrorName::NotFound)
            ||| general_dom_error(err)
        }),
    ensures
        err == dom(HostErrorName::NotFound) ==> e == Error::DoesNotExist,
        general_dom_error(err) ==> e == general_dom_error_of(err),
{
    match err {
        HostException::Dom(HostErrorName::NotFound) => Error::DoesNotExist,
        _ => from_js_value(err),
    }
}

/// Translate the failure of creating an object store. An aborted
/// upgrade transaction is a programming error and is excluded by
/// `requires`.
pub fn map_create_object_store_err(err: HostException) -> (e: Error)
    requires
        ({
            ||| err == dom(HostErrorName::InvalidState)
            ||| err == dom(HostErrorName::Constraint)
            ||| err == dom(HostErrorName::InvalidAccess)
            ||| general_dom_error(err)
        }),
    ensures
        err == dom(HostErrorName::InvalidState) ==> e == Error::InvalidCall,
        err == dom(HostErrorName::Constraint) ==> e == Error::AlreadyExists,
        err == dom(HostErrorName::InvalidAccess) ==> e == Error::InvalidArgument,
        general_dom_error(err) ==> e == general_dom_error_of(err),
{
    match err {
        HostException::Dom(HostErrorName::InvalidState) => Error::InvalidCall,
        HostException::Dom(HostErrorName::Constraint) => Error::AlreadyExists,
        HostException::Dom(HostErrorName::InvalidAccess) => Error::InvalidArgument,
        _ => from_js_value(err),
    }
}

/// Translate the failure of deleting an object store. An aborted
/// upgrade transaction is a programming error and is excluded by
/// `requires`.
pub fn map_delete_object_store_err(err: HostException) -> (e: Error)
    requires
        ({
            ||| err == dom(HostErrorName::InvalidState)
            ||| err == dom(HostErrorName::NotFound)
            ||| general_dom_error(err)
        }),
    ensures
        err == dom(HostErrorName::InvalidState) ==> e == Error::InvalidCall,
        err == dom(HostErrorName::NotFound) ==> e == Error::DoesNotExist,
        general_dom_error(err) ==> e == general_dom_error_of(err),
{
    match err {
        HostException::Dom(HostErrorName::InvalidState) => Error::InvalidCall,
        HostException::Dom(HostErrorName::NotFound) => Error::DoesNotExist,
        _ => from_js_value(err),
    }
}

/// Translate the failure of creating an index over an object store.
pub fn map_create_index_err(err: HostException) -> (e: Error)
    requires
        ({
            ||| err == dom(HostErrorName::Constraint)
            ||| err == dom(HostErrorName::InvalidAccess)
            ||| err == dom(HostErrorName::InvalidState)
            ||| err == dom(HostErrorName::Syntax)
            ||| general_dom_error(err)
        }),
    ensures
        err == dom(HostErrorName::Constraint) ==> e == Error::AlreadyExists,
        err == dom(HostErrorName::InvalidAccess) ==> e == Error::InvalidArgument,
        err == dom(HostErrorName::InvalidState) ==> e == Error::ObjectStoreWasRemoved,
        err == dom(HostErrorName::Syntax) ==> e == Error::InvalidKey,
        general_dom_error(err) ==> e == general_dom_error_of(err),
{
    match err {
        HostException::Dom(HostErrorName::Constraint) => Error::AlreadyExists,
        HostException::Dom(HostErrorName::InvalidAccess) => Error::InvalidArgument,
        HostException::Dom(HostErrorName::InvalidState) => Error::ObjectStoreWasRemoved,
        HostException::Dom(HostErrorName::Syntax) => Error::InvalidKey,
        _ => from_js_value(err),
    }
}

/// Translate the failure of looking an index up, or of deleting one.
pub fn map_index_err(err: HostException) -> (e: Error)
    requires
        ({
            ||| err == dom(HostErrorName::InvalidState)
            ||| err == dom(HostErrorName::NotFound)
            ||| general_dom_error(err)
        }),
    ensures
        err == dom(HostErrorName::InvalidState) ==> e == Error::ObjectStoreWasRemoved,
        err == dom(HostErrorName::NotFound) ==> e == Error::DoesNotExist,
        general_dom_error(err) ==> e == general_dom_error_of(err),
{
    match err {
        HostException::Dom(HostErrorName::InvalidState) => Error::ObjectStoreWasRemoved,
        HostException::Dom(HostErrorName::NotFound) => Error::DoesNotExist,
        _ => from_js_value(err),
    }
}

/// Translate the failure of a key comparison or of building a key range:
/// the only request-specific name is a data error, for an invalid key.
pub fn map_key_err(err: HostException) -> (e: Error)
    requires
        ({
            ||| err == dom(HostErrorName::Data)
            ||| general_dom_error(err)
        }),
    ensures
        err == dom(HostErrorName::Data) ==> e == Error::InvalidKey,
        general_dom_error(err) ==> e == general_dom_error_of(err),
{
    match err {
        HostException::Dom(HostErrorName::Data) => Error::InvalidKey,
        _ => from_js_value(err),
    }
}

} // verus!

