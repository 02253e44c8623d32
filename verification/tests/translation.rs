//! The translation of host exception names into the error taxonomy.

use indexed_db::{
    dom_name, from_dom_exception, from_js_value, map_add_err, map_begin_transaction_err,
    map_clear_err, map_count_err, map_create_index_err, map_create_object_store_err,
    map_cursor_advance_err, map_cursor_advance_until_err,
    map_cursor_advance_until_primary_key_err, map_cursor_delete_err, map_cursor_update_err,
    map_delete_err, map_delete_object_store_err, map_get_err, map_index_err, map_key_err,
    map_object_store_err, map_open_cursor_err, Error, HostErrorName, HostException,
};

fn dom(n: HostErrorName) -> HostException {
    HostException::Dom(n)
}

#[test]
fn general_translation_covers_its_three_names() {
    assert_eq!(
        from_dom_exception(HostErrorName::NotSupported),
        Error::OperationNotSupported
    );
    assert_eq!(
        from_dom_exception(HostErrorName::NotAllowed),
        Error::OperationNotAllowed
    );
    assert_eq!(from_dom_exception(HostErrorName::Version), Error::VersionTooOld);
    assert_eq!(
        from_js_value(dom(HostErrorName::NotSupported)),
        Error::OperationNotSupported
    );
}

#[test]
fn dom_name_reads_exceptions_only() {
    assert_eq!(
        dom_name(&dom(HostErrorName::Data)),
        Some(HostErrorName::Data)
    );
    assert_eq!(dom_name(&HostException::TypeErr), None);
    assert_eq!(dom_name(&HostException::Other), None);
}

#[test]
fn add_translation() {
    assert_eq!(map_add_err(dom(HostErrorName::ReadOnly)), Error::ReadOnly);
    assert_eq!(map_add_err(dom(HostErrorName::Data)), Error::InvalidKey);
    assert_eq!(
        map_add_err(dom(HostErrorName::InvalidState)),
        Error::ObjectStoreWasRemoved
    );
    assert_eq!(map_add_err(dom(HostErrorName::DataClone)), Error::FailedClone);
    assert_eq!(
        map_add_err(dom(HostErrorName::Constraint)),
        Error::AlreadyExists
    );
    assert_eq!(
        map_add_err(dom(HostErrorName::Version)),
        Error::VersionTooOld
    );
}

#[test]
fn clear_and_delete_translation() {
    assert_eq!(map_clear_err(dom(HostErrorName::ReadOnly)), Error::ReadOnly);
    assert_eq!(
        map_clear_err(dom(HostErrorName::InvalidState)),
        Error::ObjectStoreWasRemoved
    );
    assert_eq!(map_delete_err(dom(HostErrorName::ReadOnly)), Error::ReadOnly);
    assert_eq!(map_delete_err(dom(HostErrorName::Data)), Error::InvalidKey);
    assert_eq!(
        map_delete_err(dom(HostErrorName::InvalidState)),
        Error::ObjectStoreWasRemoved
    );
}

#[test]
fn read_translations() {
    assert_eq!(map_count_err(dom(HostErrorName::Data)), Error::InvalidKey);
    assert_eq!(
        map_count_err(dom(HostErrorName::InvalidState)),
        Error::ObjectStoreWasRemoved
    );
    assert_eq!(map_get_err(dom(HostErrorName::Data)), Error::InvalidKey);
    assert_eq!(
        map_get_err(dom(HostErrorName::InvalidState)),
        Error::ObjectStoreWasRemoved
    );
    assert_eq!(
        map_open_cursor_err(dom(HostErrorName::Data)),
        Error::InvalidKey
    );
    assert_eq!(
        map_open_cursor_err(dom(HostErrorName::InvalidState)),
        Error::ObjectStoreWasRemoved
    );
}

#[test]
fn cursor_translations() {
    assert_eq!(
        map_cursor_advance_err(dom(HostErrorName::InvalidState)),
        Error::CursorCompleted
    );
    assert_eq!(
        map_cursor_advance_err(HostException::TypeErr),
        Error::InvalidArgument
    );
    assert_eq!(
        map_cursor_advance_until_err(dom(HostErrorName::InvalidState)),
        Error::CursorCompleted
    );
    assert_eq!(
        map_cursor_advance_until_err(dom(HostErrorName::Data)),
        Error::InvalidKey
    );
    assert_eq!(
        map_cursor_advance_until_primary_key_err(dom(HostErrorName::InvalidAccess)),
        Error::InvalidArgument
    );
    assert_eq!(
        map_cursor_advance_until_primary_key_err(dom(HostErrorName::Data)),
        Error::InvalidKey
    );
    assert_eq!(
        map_cursor_delete_err(dom(HostErrorName::ReadOnly)),
        Error::ReadOnly
    );
    assert_eq!(
        map_cursor_delete_err(dom(HostErrorName::InvalidState)),
        Error::CursorCompleted
    );
    assert_eq!(
        map_cursor_update_err(dom(HostErrorName::DataClone)),
        Error::FailedClone
    );
    assert_eq!(
        map_cursor_update_err(dom(HostErrorName::Data)),
        Error::InvalidKey
    );
}

#[test]
fn schema_translations() {
    assert_eq!(
        map_begin_transaction_err(dom(HostErrorName::InvalidState)),
        Error::DatabaseIsClosed
    );
    assert_eq!(
        map_begin_transaction_err(dom(HostErrorName::NotFound)),
        Error::DoesNotExist
    );
    assert_eq!(
        map_begin_transaction_err(dom(HostErrorName::InvalidAccess)),
        Error::InvalidArgument
    );
    assert_eq!(
        map_object_store_err(dom(HostErrorName::NotFound)),
        Error::DoesNotExist
    );
    assert_eq!(
        map_create_object_store_err(dom(HostErrorName::InvalidState)),
        Error::InvalidCall
    );
    assert_eq!(
        map_create_object_store_err(dom(HostErrorName::Constraint)),
        Error::AlreadyExists
    );
    assert_eq!(
        map_delete_object_store_err(dom(HostErrorName::NotFound)),
        Error::DoesNotExist
    );
    assert_eq!(
        map_create_index_err(dom(HostErrorName::Syntax)),
        Error::InvalidKey
    );
    assert_eq!(
        map_create_index_err(dom(HostErrorName::Constraint)),
        Error::AlreadyExists
    );
    assert_eq!(
        map_index_err(dom(HostErrorName::NotFound)),
        Error::DoesNotExist
    );
    assert_eq!(map_key_err(dom(HostErrorName::Data)), Error::InvalidKey);
}

#[test]
fn messages_name_each_error() {
    assert_eq!(Error::ReadOnly.message(), "Transaction is read-only");
    assert_eq!(Error::CursorCompleted.message(), "Cursor finished its range");
    assert_eq!(Error::InvalidRange.message(), "Invalid range");
    assert_eq!(
        Error::VersionMustNotBeZero.message(),
        "Version must not be zero"
    );
}
