//! All the option types needed for interfacing with leveldb.
//!
//! Those are:
//! * `Options`: used when opening a database
//! * `ReadOptions`: used when reading from leveldb
//! * `WriteOptions`: used when writing to leveldb
//!
//! The engine takes its configuration as native objects that are filled by
//! setter calls. The functions `c_options`, `c_writeoptions` and `c_readoptions`
//! translate the structs of this module into the values that those setters get.
use crate::database::engine::Handle;
use crate::database::snapshots::RawSnapshot;
use vstd::prelude::*;

verus! {

/// Whether the engine compresses the blocks it writes.
#[derive(Clone, Copy, Debug, PartialEq, Eq, Structural)]
pub enum Compression {
    /// No compression.
    No,
    /// Compression with snappy.
    Snappy,
}

/// Options to consider when opening a new or pre-existing database.
///
/// Note that in contrast to the leveldb C API, the Comparator is not
/// passed using this structure.
#[derive(Clone, Copy, Debug, PartialEq, Eq, Structural)]
pub struct Options {
    /// create the database if missing
    ///
    /// default: false
    pub create_if_missing: bool,
    /// report an error if the DB already exists instead of opening.
    ///
    /// default: false
    pub error_if_exists: bool,
    /// paranoid checks make the database report an error as soon as
    /// corruption is detected.
    ///
    /// default: false
    pub paranoid_checks: bool,
    /// Override the size of the write buffer to use.
    ///
    /// default: None
    pub write_buffer_size: Option<usize>,
    /// Override the max number of open files.
    ///
    /// default: None
    pub max_open_files: Option<i32>,
    /// Override the size of the blocks leveldb uses for writing and caching.
    ///
    /// default: None
    pub block_size: Option<usize>,
    /// Override the interval between restart points.
    ///
    /// default: None
    pub block_restart_interval: Option<i32>,
    /// Define whether leveldb should write compressed or not.
    ///
    /// default: Compression::No
    pub compression: Compression,
}

impl Default for Options {
    /// Create a new `Options` struct with default settings.
    fn default() -> (options: Options)
        ensures
            options == (Options {
                create_if_missing: false,
                error_if_exists: false,
                paranoid_checks: false,
                write_buffer_size: None,
                max_open_files: None,
                block_size: None,
                block_restart_interval: None,
                compression: Compression::No,
            }),
    {
        Options {
            create_if_missing: false,
            error_if_exists: false,
            paranoid_checks: false,
            write_buffer_size: None,
            max_open_files: None,
            block_size: None,
            block_restart_interval: None,
            compression: Compression::No,
        }
    }
}

impl Options {
    /// Create a new `Options` struct with default settings.
    pub fn new() -> (options: Options)
        ensures
            options == (Options {
                create_if_missing: false,
                error_if_exists: false,
                paranoid_checks: false,
                write_buffer_size: None,
                max_open_files: None,
                block_size: None,
                block_restart_interval: None,
                compression: Compression::No,
            }),
    {
        Options::default()
    }
}

/// The write options to use for a write operation.
#[derive(Clone, Copy, Debug, PartialEq, Eq, Structural)]
pub struct WriteOptions {
    /// `fsync` before acknowledging a write operation.
    ///
    /// default: false
    pub sync: bool,
}

impl Default for WriteOptions {
    /// Return a new `WriteOptions` struct with default settings.
    fn default() -> (options: WriteOptions)
        ensures
            options == (WriteOptions { sync: false }),
    {
        WriteOptions { sync: false }
    }
}

impl WriteOptions {
    /// Return a new `WriteOptions` struct with default settings.
    pub fn new() -> (options: WriteOptions)
        ensures
            options == (WriteOptions { sync: false }),
    {
        WriteOptions::default()
    }
}

/// The read options to use for any read operation.
#[derive(Debug)]
pub struct ReadOptions<'a> {
    /// Whether to verify the saved checksums on read.
    ///
    /// default: false
    pub verify_checksums: bool,
    /// Whether to fill the internal cache with the
    /// results of the read.
    ///
    /// default: true
    pub fill_cache: bool,
    /// An optional snapshot to base this operation on.
    ///
    /// default: None
    pub snapshot: Option<&'a RawSnapshot>,
}

impl<'a> Default for ReadOptions<'a> {
    /// Return a `ReadOptions` struct with the default values.
    fn default() -> (options: ReadOptions<'a>)
        ensures
            options == (ReadOptions { verify_checksums: false, fill_cache: true, snapshot: None }),
    {
        ReadOptions { verify_checksums: false, fill_cache: true, snapshot: None }
    }
}

impl<'a> ReadOptions<'a> {
    /// Return a `ReadOptions` struct with the default values.
    pub fn new() -> (options: ReadOptions<'a>)
        ensures
            options == (ReadOptions { verify_checksums: false, fill_cache: true, snapshot: None }),
    {
        ReadOptions::default()
    }
}

/// What the setters of a native write options object get.
#[derive(Clone, Copy, Debug, PartialEq, Eq, Structural)]
pub struct NativeWriteOptions {
    /// `sync`, as the engine's flag byte.
    pub sync: u8,
}

/// What the setters of a native read options object get.
#[derive(Clone, Copy, Debug, PartialEq, Eq, Structural)]
pub struct NativeReadOptions {
    /// `verify_checksums`, as the engine's flag byte.
    pub verify_checksums: u8,
    /// `fill_cache`, as the engine's flag byte.
    pub fill_cache: u8,
    /// The snapshot to read from, where the read is bound to one.
    pub snapshot: Option<Handle>,
}

/// One setter call on a native options object.
#[derive(Clone, Copy, Debug, PartialEq, Eq, Structural)]
pub enum Setting {
    /// `create_if_missing`, as the engine's flag byte.
    CreateIfMissing(u8),
    /// `error_if_exists`, as the engine's flag byte.
    ErrorIfExists(u8),
    /// `paranoid_checks`, as the engine's flag byte.
    ParanoidChecks(u8),
    /// The size of the write buffer, in bytes.
    WriteBufferSize(usize),
    /// The number of files the engine may keep open.
    MaxOpenFiles(i32),
    /// The size of a block, in bytes.
    BlockSize(usize),
    /// The number of keys between restart points.
    BlockRestartInterval(i32),
    /// The compression of blocks.
    Compression(Compression),
    /// The native comparator that orders the keys.
    Comparator(Handle),
}

/// The engine's flag byte for a boolean: 1 for true, 0 for false.
pub open spec fn flag_of(b: bool) -> u8 {
    if b {
        1
    } else {
        0
    }
}

/// `settings` followed by `setting` where one is given, and unchanged where
/// none is.
pub open spec fn followed_by(settings: Seq<Setting>, setting: Option<Setting>) -> Seq<Setting> {
    match setting {
        Some(s) => settings.push(s),
        None => settings,
    }
}

/// The setter call for an override of the write buffer's size.
pub open spec fn write_buffer_setting(size: Option<usize>) -> Option<Setting> {
    match size {
        Some(n) => Some(Setting::WriteBufferSize(n)),
        None => None,
    }
}

/// The setter call for an override of the number of open files.
pub open spec fn open_files_setting(files: Option<i32>) -> Option<Setting> {
    match files {
        Some(n) => Some(Setting::MaxOpenFiles(n)),
        None => None,
    }
}

/// The setter call for an override of the block size.
pub open spec fn block_size_setting(size: Option<usize>) -> Option<Setting> {
    match size {
        Some(n) => Some(Setting::BlockSize(n)),
        None => None,
    }
}

/// The setter call for an override of the restart interval.
pub open spec fn restart_interval_setting(interval: Option<i32>) -> Option<Setting> {
    match interval {
        Some(n) => Some(Setting::BlockRestartInterval(n)),
        None => None,
    }
}

/// The setter call that installs a comparator.
pub open spec fn comparator_setting(comparator: Option<Handle>) -> Option<Setting> {
    match comparator {
        Some(c) => Some(Setting::Comparator(c)),
        None => None,
    }
}

/// The setter calls that configure a native options object for `options`, in
/// the order in which they are made: the three flags, each override that is
/// given, the compression, and the comparator where one is installed.
pub open spec fn native_options(options: Options, comparator: Option<Handle>) -> Seq<Setting> {
    let flags = seq![
        Setting::CreateIfMissing(flag_of(options.create_if_missing)),
        Setting::ErrorIfExists(flag_of(options.error_if_exists)),
        Setting::ParanoidChecks(flag_of(options.paranoid_checks)),
    ];
    let sized = followed_by(
        followed_by(
            followed_by(
                followed_by(flags, write_buffer_setting(options.write_buffer_size)),
                open_files_setting(options.max_open_files),
            ),
            block_size_setting(options.block_size),
        ),
        restart_interval_setting(options.block_restart_interval),
    );
    followed_by(
        sized.push(Setting::Compression(options.compression)),
        comparator_setting(comparator),
    )
}

/// The engine's flag byte for a boolean.
pub fn flag(b: bool) -> (byte: u8)
    ensures
        byte == flag_of(b),
{
    if b {
        1
    } else {
        0
    }
}

/// Translates `options`, and the comparator to install if there is one, into
/// the setter calls for a fresh native options object.
pub fn c_options(options: &Options, comparator: Option<Handle>) -> (settings: Vec<Setting>)
    ensures
        settings@ == native_options(*options, comparator),
{
    let mut settings: Vec<Setting> = Vec::new();
    settings.push(Setting::CreateIfMissing(flag(options.create_if_missing)));
    settings.push(Setting::ErrorIfExists(flag(options.error_if_exists)));
    settings.push(Setting::ParanoidChecks(flag(options.paranoid_checks)));
    if let Some(wbs) = options.write_buffer_size {
        settings.push(Setting::WriteBufferSize(wbs));
    }
    if let Some(mf) = options.max_open_files {
        settings.push(Setting::MaxOpenFiles(mf));
    }
    if let Some(bs) = options.block_size {
        settings.push(Setting::BlockSize(bs));
    }
    if let Some(bi) = options.block_restart_interval {
        settings.push(Setting::BlockRestartInterval(bi));
    }
    settings.push(Setting::Compression(options.compression));
    if let Some(c) = comparator {
        settings.push(Setting::Comparator(c));
    }
    settings
}

/// What a native write options object for `options` is set to.
pub open spec fn native_writeoptions(options: WriteOptions) -> NativeWriteOptions {
    NativeWriteOptions { sync: flag_of(options.sync) }
}

/// What a native read options object for `options` is set to. The snapshot
/// setter is called only where the read is bound to a snapshot.
pub open spec fn native_readoptions(options: ReadOptions) -> NativeReadOptions {
    NativeReadOptions {
        verify_checksums: flag_of(options.verify_checksums),
        fill_cache: flag_of(options.fill_cache),
        snapshot: match options.snapshot {
            Some(snapshot) => Some(snapshot.ptr),
            None => None,
        },
    }
}

/// Translates `options` into what the setters of a native write options
/// object get.
pub fn c_writeoptions(options: &WriteOptions) -> (native: NativeWriteOptions)
    ensures
        native == native_writeoptions(*options),
{
    NativeWriteOptions { sync: flag(options.sync) }
}

/// Translates `options` into what the setters of a native read options
/// object get.
pub fn c_readoptions(options: &ReadOptions) -> (native: NativeReadOptions)
    ensures
        native == native_readoptions(*options),
{
    let snapshot = match options.snapshot {
        Some(snapshot) => Some(snapshot.ptr),
        None => None,
    };
    NativeReadOptions {
        verify_checksums: flag(options.verify_checksums),
        fill_cache: flag(options.fill_cache),
        snapshot,
    }
}

} // verus!
