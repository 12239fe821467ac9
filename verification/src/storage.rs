use vstd::prelude::*;

verus! {

/// A place where you can store custom data in a way that persists when you
/// restart the app.
///
/// On desktop this is backed by the file system.
pub trait Storage {
    /// Get the value for the given key.
    fn get_string(&self, key: &str) -> Option<String>;

    /// Set the value for the given key.
    fn set_string(&mut self, key: &str, value: String);

    /// Write to disk or similar.
    fn flush(&mut self);
}

/// [`Storage`] key used for the app.
pub const APP_KEY: &'static str = "app";

/// For loading and saving the app state and the egui memory: the storage of
/// the app with the id `app_name`.
///
/// This build has no persistent storage backend, so there is no storage.
pub fn create_storage(app_name: &str) -> (r: Option<Box<dyn Storage>>)
    ensures
        r is None,
{
    let _ = app_name;
    None
}

/// The storage kept in the file `file` (a path).
///
/// This build has no persistent storage backend, so there is no storage.
pub fn create_storage_with_file<P>(file: P) -> (r: Option<Box<dyn Storage>>)
    ensures
        r is None,
{
    let _ = file;
    None
}

} // verus!
