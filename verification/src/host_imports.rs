//! The functions that a guest imports from its host.
//!
//! For every import this module says what its parameters are, in which order they are checked, what
//! is answered where one of them does not do, and how the answer of a service goes back to the
//! guest. The services themselves (files, cryptography, sockets and so on) are the caller's.
use vstd::prelude::*;

use crate::daemon_inspector::{ERR_BIND, ERR_NOT_OPEN};
use crate::host_memory::E_OTHER;

verus! {

/// The name of the module that a guest imports its host's functions from.
pub const NS: &'static str = "afterburner:host";

/// A service is not there, or it failed.
pub const FAILED: i32 = -1;

/// The functions that a guest imports.
#[derive(Debug, Clone, Copy, PartialEq, Eq, Structural)]
pub enum Import {
    FsExists,
    FsReadFile,
    FsWriteFile,
    FsStat,
    FsUnlink,
    FsRename,
    FsMkdir,
    FsReaddir,
    FsRealpath,
    FsReadlink,
    FsCp,
    FsOpendir,
    FsWatchPoll,
    FsReadChunk,
    FsWriteChunk,
    FsSize,
    CryptoHash,
    CryptoRandomBytes,
    CryptoSubtleOp,
    CryptoCheckPrime,
    CryptoGeneratePrime,
    CryptoAesGcmEncrypt,
    CryptoAesGcmDecrypt,
    CryptoAesCbcEncrypt,
    CryptoAesCbcDecrypt,
    CryptoPbkdf2,
    CryptoScrypt,
    CryptoSign,
    CryptoVerify,
    CryptoSignOpen,
    CryptoSignUpdate,
    CryptoSignFinalize,
    CryptoVerifyFinalize,
    CryptoHashOpen,
    CryptoHmacOpen,
    CryptoHashUpdate,
    CryptoHashDigest,
    Http3ListenSetCert,
    Http3Request,
    Http3Listen,
    V8Serialize,
    V8Deserialize,
    OsPlatform,
    OsArch,
    OsHomeDir,
    OsTmpdir,
    OsHostname,
    HttpRequest,
    HttpRequestAsync,
    DnsLookup,
    DnsResolve4,
    DnsResolve6,
    DnsResolveCname,
    DnsResolveNs,
    DnsReverse,
    DnsResolveMx,
    DnsResolveTxt,
    DnsResolveSoa,
    ZlibDeflate,
    ZlibInflate,
    ZlibGzip,
    ZlibGunzip,
    ZlibZstdCompress,
    ZlibZstdDecompress,
    StateGet,
    StateSet,
    StateDelete,
    StateIncrement,
    ReadColumn,
    EmitRow,
    GetEnv,
    LastError,
    GetInput,
    GetInputLen,
    ColumnarReply,
    GetEnvelope,
    HttpListen,
    HttpReply,
    HttpClose,
    BcryptHash,
    BcryptVerify,
    BcryptGenSalt,
    Argon2Hash,
    Argon2Verify,
    Argon2NeedsRehash,
    JwtSign,
    JwtVerify,
    JwtDecode,
    SqliteOpen,
    SqliteRun,
    SqliteGet,
    SqliteAll,
    SqliteExec,
    SqliteClose,
    SharpRun,
    SharpMetadata,
    SharpStats,
    TsTranspile,
    ProcessExit,
    TimerSet,
    TimerClear,
    TimerUnref,
    TimerRef,
    WorkerSpawn,
    WorkerSpawnEnv,
    WorkerPid,
    WorkerPostMessage,
    WorkerTerminate,
    WorkerPostToParent,
    WorkerPostOnline,
    WorkerPostError,
    WorkerThreadId,
    WorkerIsMainThread,
    WorkerData,
    NetConnect,
    NetWrite,
    NetEnd,
    NetDestroy,
    NetPending,
    NetSetNoDelay,
    NetSetKeepAlive,
    NetListen,
    NetCloseServer,
    TlsConnect,
    TlsWrite,
    TlsEnd,
    TlsDestroy,
    TlsPending,
    TlsListen,
    TlsCloseServer,
    DgramBind,
    DgramSend,
    DgramClose,
    DgramAddress,
    ChildProcessExec,
    WasmCompile,
    WasmDropModule,
    WasmModuleExports,
    WasmModuleImports,
    WasmInstantiate,
    WasmDropInstance,
    WasmCallExport,
    WasmMemoryRead,
    WasmMemoryWrite,
    WasmMemorySize,
    InspectorOpen,
    InspectorClose,
    InspectorSend,
}

/// The name that a guest imports a function by.
pub open spec fn name_of(i: Import) -> Seq<char> {
    match i {
        Import::FsExists => "host_fs_exists_sync"@,
        Import::FsReadFile => "host_fs_read_file_sync"@,
        Import::FsWriteFile => "host_fs_write_file_sync"@,
        Import::FsStat => "host_fs_stat_sync"@,
        Import::FsUnlink => "host_fs_unlink_sync"@,
        Import::FsRename => "host_fs_rename_sync"@,
        Import::FsMkdir => "host_fs_mkdir_sync"@,
        Import::FsReaddir => "host_fs_readdir_sync"@,
        Import::FsRealpath => "host_fs_realpath_sync"@,
        Import::FsReadlink => "host_fs_readlink_sync"@,
        Import::FsCp => "host_fs_cp"@,
        Import::FsOpendir => "host_fs_opendir_sync"@,
        Import::FsWatchPoll => "host_fs_watch_poll"@,
        Import::FsReadChunk => "host_fs_read_chunk"@,
        Import::FsWriteChunk => "host_fs_write_chunk"@,
        Import::FsSize => "host_fs_size"@,
        Import::CryptoHash => "host_crypto_hash"@,
        Import::CryptoRandomBytes => "host_crypto_random_bytes"@,
        Import::CryptoSubtleOp => "host_crypto_subtle_op"@,
        Import::CryptoCheckPrime => "host_crypto_check_prime"@,
        Import::CryptoGeneratePrime => "host_crypto_generate_prime"@,
        Import::CryptoAesGcmEncrypt => "host_crypto_aes_gcm_encrypt"@,
        Import::CryptoAesGcmDecrypt => "host_crypto_aes_gcm_decrypt"@,
        Import::CryptoAesCbcEncrypt => "host_crypto_aes_cbc_encrypt"@,
        Import::CryptoAesCbcDecrypt => "host_crypto_aes_cbc_decrypt"@,
        Import::CryptoPbkdf2 => "host_crypto_pbkdf2_sync"@,
        Import::CryptoScrypt => "host_crypto_scrypt_sync"@,
        Import::CryptoSign => "host_crypto_sign"@,
        Import::CryptoVerify => "host_crypto_verify"@,
        Import::CryptoSignOpen => "host_crypto_sign_open"@,
        Import::CryptoSignUpdate => "host_crypto_sign_update"@,
        Import::CryptoSignFinalize => "host_crypto_sign_finalize"@,
        Import::CryptoVerifyFinalize => "host_crypto_verify_finalize"@,
        Import::CryptoHashOpen => "host_crypto_hash_open"@,
        Import::CryptoHmacOpen => "host_crypto_hmac_open"@,
        Import::CryptoHashUpdate => "host_crypto_hash_update"@,
        Import::CryptoHashDigest => "host_crypto_hash_digest"@,
        Import::Http3ListenSetCert => "host_http3_listen_set_cert"@,
        Import::Http3Request => "host_http3_request"@,
        Import::Http3Listen => "host_http3_listen"@,
        Import::V8Serialize => "host_v8_serialize"@,
        Import::V8Deserialize => "host_v8_deserialize"@,
        Import::OsPlatform => "host_os_platform"@,
        Import::OsArch => "host_os_arch"@,
        Import::OsHomeDir => "host_os_home_dir"@,
        Import::OsTmpdir => "host_os_tmpdir"@,
        Import::OsHostname => "host_os_hostname"@,
        Import::HttpRequest => "host_http_request"@,
        Import::HttpRequestAsync => "host_http_request_async"@,
        Import::DnsLookup => "host_dns_lookup"@,
        Import::DnsResolve4 => "host_dns_resolve4"@,
        Import::DnsResolve6 => "host_dns_resolve6"@,
        Import::DnsResolveCname => "host_dns_resolve_cname"@,
        Import::DnsResolveNs => "host_dns_resolve_ns"@,
        Import::DnsReverse => "host_dns_reverse"@,
        Import::DnsResolveMx => "host_dns_resolve_mx"@,
        Import::DnsResolveTxt => "host_dns_resolve_txt"@,
        Import::DnsResolveSoa => "host_dns_resolve_soa"@,
        Import::ZlibDeflate => "host_zlib_deflate_sync"@,
        Import::ZlibInflate => "host_zlib_inflate_sync"@,
        Import::ZlibGzip => "host_zlib_gzip_sync"@,
        Import::ZlibGunzip => "host_zlib_gunzip_sync"@,
        Import::ZlibZstdCompress => "host_zlib_zstd_compress_sync"@,
        Import::ZlibZstdDecompress => "host_zlib_zstd_decompress_sync"@,
        Import::StateGet => "host_state_get"@,
        Import::StateSet => "host_state_set"@,
        Import::StateDelete => "host_state_delete"@,
        Import::StateIncrement => "host_state_increment"@,
        Import::ReadColumn => "host_read_column"@,
        Import::EmitRow => "host_emit_row"@,
        Import::GetEnv => "host_get_env"@,
        Import::LastError => "host_last_error"@,
        Import::GetInput => "host_get_input"@,
        Import::GetInputLen => "host_get_input_len"@,
        Import::ColumnarReply => "host_columnar_reply"@,
        Import::GetEnvelope => "host_get_envelope"@,
        Import::HttpListen => "host_http_listen"@,
        Import::HttpReply => "host_http_reply"@,
        Import::HttpClose => "host_http_close"@,
        Import::BcryptHash => "host_shadow_bcrypt_hash"@,
        Import::BcryptVerify => "host_shadow_bcrypt_verify"@,
        Import::BcryptGenSalt => "host_shadow_bcrypt_gen_salt"@,
        Import::Argon2Hash => "host_shadow_argon2_hash"@,
        Import::Argon2Verify => "host_shadow_argon2_verify"@,
        Import::Argon2NeedsRehash => "host_shadow_argon2_needs_rehash"@,
        Import::JwtSign => "host_shadow_jwt_sign"@,
        Import::JwtVerify => "host_shadow_jwt_verify"@,
        Import::JwtDecode => "host_shadow_jwt_decode"@,
        Import::SqliteOpen => "host_shadow_sqlite3_open"@,
        Import::SqliteRun => "host_shadow_sqlite3_run"@,
        Import::SqliteGet => "host_shadow_sqlite3_get"@,
        Import::SqliteAll => "host_shadow_sqlite3_all"@,
        Import::SqliteExec => "host_shadow_sqlite3_exec"@,
        Import::SqliteClose => "host_shadow_sqlite3_close"@,
        Import::SharpRun => "host_shadow_sharp_run"@,
        Import::SharpMetadata => "host_shadow_sharp_metadata"@,
        Import::SharpStats => "host_shadow_sharp_stats"@,
        Import::TsTranspile => "host_ts_transpile"@,
        Import::ProcessExit => "host_process_exit"@,
        Import::TimerSet => "host_timer_set"@,
        Import::TimerClear => "host_timer_clear"@,
        Import::TimerUnref => "host_timer_unref"@,
        Import::TimerRef => "host_timer_ref"@,
        Import::WorkerSpawn => "host_worker_spawn"@,
        Import::WorkerSpawnEnv => "host_worker_spawn_env"@,
        Import::WorkerPid => "host_worker_pid"@,
        Import::WorkerPostMessage => "host_worker_post_message"@,
        Import::WorkerTerminate => "host_worker_terminate"@,
        Import::WorkerPostToParent => "host_worker_post_to_parent"@,
        Import::WorkerPostOnline => "host_worker_post_online_to_parent"@,
        Import::WorkerPostError => "host_worker_post_error_to_parent"@,
        Import::WorkerThreadId => "host_worker_thread_id"@,
        Import::WorkerIsMainThread => "host_worker_is_main_thread"@,
        Import::WorkerData => "host_worker_data"@,
        Import::NetConnect => "host_net_connect"@,
        Import::NetWrite => "host_net_write"@,
        Import::NetEnd => "host_net_end"@,
        Import::NetDestroy => "host_net_destroy"@,
        Import::NetPending => "host_net_pending"@,
        Import::NetSetNoDelay => "host_net_set_no_delay"@,
        Import::NetSetKeepAlive => "host_net_set_keep_alive"@,
        Import::NetListen => "host_net_listen"@,
        Import::NetCloseServer => "host_net_close_server"@,
        Import::TlsConnect => "host_tls_connect"@,
        Import::TlsWrite => "host_tls_write"@,
        Import::TlsEnd => "host_tls_end"@,
        Import::TlsDestroy => "host_tls_destroy"@,
        Import::TlsPending => "host_tls_pending"@,
        Import::TlsListen => "host_tls_listen"@,
        Import::TlsCloseServer => "host_tls_close_server"@,
        Import::DgramBind => "host_dgram_bind"@,
        Import::DgramSend => "host_dgram_send"@,
        Import::DgramClose => "host_dgram_close"@,
        Import::DgramAddress => "host_dgram_address"@,
        Import::ChildProcessExec => "host_child_process_exec_sync"@,
        Import::WasmCompile => "host_wasm_compile"@,
        Import::WasmDropModule => "host_wasm_drop_module"@,
        Import::WasmModuleExports => "host_wasm_module_exports"@,
        Import::WasmModuleImports => "host_wasm_module_imports"@,
        Import::WasmInstantiate => "host_wasm_instantiate"@,
        Import::WasmDropInstance => "host_wasm_drop_instance"@,
        Import::WasmCallExport => "host_wasm_call_export"@,
        Import::WasmMemoryRead => "host_wasm_memory_read"@,
        Import::WasmMemoryWrite => "host_wasm_memory_write"@,
        Import::WasmMemorySize => "host_wasm_memory_size"@,
        Import::InspectorOpen => "host_inspector_open"@,
        Import::InspectorClose => "host_inspector_close"@,
        Import::InspectorSend => "host_inspector_send"@,
    }
}

impl Import {
    /// The name that a guest imports the function by.
    pub fn name(self) -> (r: &'static str)
        ensures
            r@ == name_of(self),
    {
        match self {
            Import::FsExists => "host_fs_exists_sync",
            Import::FsReadFile => "host_fs_read_file_sync",
            Import::FsWriteFile => "host_fs_write_file_sync",
            Import::FsStat => "host_fs_stat_sync",
            Import::FsUnlink => "host_fs_unlink_sync",
            Import::FsRename => "host_fs_rename_sync",
            Import::FsMkdir => "host_fs_mkdir_sync",
            Import::FsReaddir => "host_fs_readdir_sync",
            Import::FsRealpath => "host_fs_realpath_sync",
            Import::FsReadlink => "host_fs_readlink_sync",
            Import::FsCp => "host_fs_cp",
            Import::FsOpendir => "host_fs_opendir_sync",
            Import::FsWatchPoll => "host_fs_watch_poll",
            Import::FsReadChunk => "host_fs_read_chunk",
            Import::FsWriteChunk => "host_fs_write_chunk",
            Import::FsSize => "host_fs_size",
            Import::CryptoHash => "host_crypto_hash",
            Import::CryptoRandomBytes => "host_crypto_random_bytes",
            Import::CryptoSubtleOp => "host_crypto_subtle_op",
            Import::CryptoCheckPrime => "host_crypto_check_prime",
            Import::CryptoGeneratePrime => "host_crypto_generate_prime",
            Import::CryptoAesGcmEncrypt => "host_crypto_aes_gcm_encrypt",
            Import::CryptoAesGcmDecrypt => "host_crypto_aes_gcm_decrypt",
            Import::CryptoAesCbcEncrypt => "host_crypto_aes_cbc_encrypt",
            Import::CryptoAesCbcDecrypt => "host_crypto_aes_cbc_decrypt",
            Import::CryptoPbkdf2 => "host_crypto_pbkdf2_sync",
            Import::CryptoScrypt => "host_crypto_scrypt_sync",
            Import::CryptoSign => "host_crypto_sign",
            Import::CryptoVerify => "host_crypto_verify",
            Import::CryptoSignOpen => "host_crypto_sign_open",
            Import::CryptoSignUpdate => "host_crypto_sign_update",
            Import::CryptoSignFinalize => "host_crypto_sign_finalize",
            Import::CryptoVerifyFinalize => "host_crypto_verify_finalize",
            Import::CryptoHashOpen => "host_crypto_hash_open",
            Import::CryptoHmacOpen => "host_crypto_hmac_open",
            Import::CryptoHashUpdate => "host_crypto_hash_update",
            Import::CryptoHashDigest => "host_crypto_hash_digest",
            Import::Http3ListenSetCert => "host_http3_listen_set_cert",
            Import::Http3Request => "host_http3_request",
            Import::Http3Listen => "host_http3_listen",
            Import::V8Serialize => "host_v8_serialize",
            Import::V8Deserialize => "host_v8_deserialize",
            Import::OsPlatform => "host_os_platform",
            Import::OsArch => "host_os_arch",
            Import::OsHomeDir => "host_os_home_dir",
            Import::OsTmpdir => "host_os_tmpdir",
            Import::OsHostname => "host_os_hostname",
            Import::HttpRequest => "host_http_request",
            Import::HttpRequestAsync => "host_http_request_async",
            Import::DnsLookup => "host_dns_lookup",
            Import::DnsResolve4 => "host_dns_resolve4",
            Import::DnsResolve6 => "host_dns_resolve6",
            Import::DnsResolveCname => "host_dns_resolve_cname",
            Import::DnsResolveNs => "host_dns_resolve_ns",
            Import::DnsReverse => "host_dns_reverse",
            Import::DnsResolveMx => "host_dns_resolve_mx",
            Import::DnsResolveTxt => "host_dns_resolve_txt",
            Import::DnsResolveSoa => "host_dns_resolve_soa",
            Import::ZlibDeflate => "host_zlib_deflate_sync",
            Import::ZlibInflate => "host_zlib_inflate_sync",
            Import::ZlibGzip => "host_zlib_gzip_sync",
            Import::ZlibGunzip => "host_zlib_gunzip_sync",
            Import::ZlibZstdCompress => "host_zlib_zstd_compress_sync",
            Import::ZlibZstdDecompress => "host_zlib_zstd_decompress_sync",
            Import::StateGet => "host_state_get",
            Import::StateSet => "host_state_set",
            Import::StateDelete => "host_state_delete",
            Import::StateIncrement => "host_state_increment",
            Import::ReadColumn => "host_read_column",
            Import::EmitRow => "host_emit_row",
            Import::GetEnv => "host_get_env",
            Import::LastError => "host_last_error",
            Import::GetInput => "host_get_input",
            Import::GetInputLen => "host_get_input_len",
            Import::ColumnarReply => "host_columnar_reply",
            Import::GetEnvelope => "host_get_envelope",
            Import::HttpListen => "host_http_listen",
            Import::HttpReply => "host_http_reply",
            Import::HttpClose => "host_http_close",
            Import::BcryptHash => "host_shadow_bcrypt_hash",
            Import::BcryptVerify => "host_shadow_bcrypt_verify",
            Import::BcryptGenSalt => "host_shadow_bcrypt_gen_salt",
            Import::Argon2Hash => "host_shadow_argon2_hash",
            Import::Argon2Verify => "host_shadow_argon2_verify",
            Import::Argon2NeedsRehash => "host_shadow_argon2_needs_rehash",
            Import::JwtSign => "host_shadow_jwt_sign",
            Import::JwtVerify => "host_shadow_jwt_verify",
            Import::JwtDecode => "host_shadow_jwt_decode",
            Import::SqliteOpen => "host_shadow_sqlite3_open",
            Import::SqliteRun => "host_shadow_sqlite3_run",
            Import::SqliteGet => "host_shadow_sqlite3_get",
            Import::SqliteAll => "host_shadow_sqlite3_all",
            Import::SqliteExec => "host_shadow_sqlite3_exec",
            Import::SqliteClose => "host_shadow_sqlite3_close",
            Import::SharpRun => "host_shadow_sharp_run",
            Import::SharpMetadata => "host_shadow_sharp_metadata",
            Import::SharpStats => "host_shadow_sharp_stats",
            Import::TsTranspile => "host_ts_transpile",
            Import::ProcessExit => "host_process_exit",
            Import::TimerSet => "host_timer_set",
            Import::TimerClear => "host_timer_clear",
            Import::TimerUnref => "host_timer_unref",
            Import::TimerRef => "host_timer_ref",
            Import::WorkerSpawn => "host_worker_spawn",
            Import::WorkerSpawnEnv => "host_worker_spawn_env",
            Import::WorkerPid => "host_worker_pid",
            Import::WorkerPostMessage => "host_worker_post_message",
            Import::WorkerTerminate => "host_worker_terminate",
            Import::WorkerPostToParent => "host_worker_post_to_parent",
            Import::WorkerPostOnline => "host_worker_post_online_to_parent",
            Import::WorkerPostError => "host_worker_post_error_to_parent",
            Import::WorkerThreadId => "host_worker_thread_id",
            Import::WorkerIsMainThread => "host_worker_is_main_thread",
            Import::WorkerData => "host_worker_data",
            Import::NetConnect => "host_net_connect",
            Import::NetWrite => "host_net_write",
            Import::NetEnd => "host_net_end",
            Import::NetDestroy => "host_net_destroy",
            Import::NetPending => "host_net_pending",
            Import::NetSetNoDelay => "host_net_set_no_delay",
            Import::NetSetKeepAlive => "host_net_set_keep_alive",
            Import::NetListen => "host_net_listen",
            Import::NetCloseServer => "host_net_close_server",
            Import::TlsConnect => "host_tls_connect",
            Import::TlsWrite => "host_tls_write",
            Import::TlsEnd => "host_tls_end",
            Import::TlsDestroy => "host_tls_destroy",
            Import::TlsPending => "host_tls_pending",
            Import::TlsListen => "host_tls_listen",
            Import::TlsCloseServer => "host_tls_close_server",
            Import::DgramBind => "host_dgram_bind",
            Import::DgramSend => "host_dgram_send",
            Import::DgramClose => "host_dgram_close",
            Import::DgramAddress => "host_dgram_address",
            Import::ChildProcessExec => "host_child_process_exec_sync",
            Import::WasmCompile => "host_wasm_compile",
            Import::WasmDropModule => "host_wasm_drop_module",
            Import::WasmModuleExports => "host_wasm_module_exports",
            Import::WasmModuleImports => "host_wasm_module_imports",
            Import::WasmInstantiate => "host_wasm_instantiate",
            Import::WasmDropInstance => "host_wasm_drop_instance",
            Import::WasmCallExport => "host_wasm_call_export",
            Import::WasmMemoryRead => "host_wasm_memory_read",
            Import::WasmMemoryWrite => "host_wasm_memory_write",
            Import::WasmMemorySize => "host_wasm_memory_size",
            Import::InspectorOpen => "host_inspector_open",
            Import::InspectorClose => "host_inspector_close",
            Import::InspectorSend => "host_inspector_send",
        }
    }
}

/// The number of functions that a guest can import.
pub const IMPORTS: usize = 148;

/// The place of a function in the list of all.
pub open spec fn place_of(i: Import) -> int {
    match i {
        Import::FsExists => 0,
        Import::FsReadFile => 1,
        Import::FsWriteFile => 2,
        Import::FsStat => 3,
        Import::FsUnlink => 4,
        Import::FsRename => 5,
        Import::FsMkdir => 6,
        Import::FsReaddir => 7,
        Import::FsRealpath => 8,
        Import::FsReadlink => 9,
        Import::FsCp => 10,
        Import::FsOpendir => 11,
        Import::FsWatchPoll => 12,
        Import::FsReadChunk => 13,
        Import::FsWriteChunk => 14,
        Import::FsSize => 15,
        Import::CryptoHash => 16,
        Import::CryptoRandomBytes => 17,
        Import::CryptoSubtleOp => 18,
        Import::CryptoCheckPrime => 19,
        Import::CryptoGeneratePrime => 20,
        Import::CryptoAesGcmEncrypt => 21,
        Import::CryptoAesGcmDecrypt => 22,
        Import::CryptoAesCbcEncrypt => 23,
        Import::CryptoAesCbcDecrypt => 24,
        Import::CryptoPbkdf2 => 25,
        Import::CryptoScrypt => 26,
        Import::CryptoSign => 27,
        Import::CryptoVerify => 28,
        Import::CryptoSignOpen => 29,
        Import::CryptoSignUpdate => 30,
        Import::CryptoSignFinalize => 31,
        Import::CryptoVerifyFinalize => 32,
        Import::CryptoHashOpen => 33,
        Import::CryptoHmacOpen => 34,
        Import::CryptoHashUpdate => 35,
        Import::CryptoHashDigest => 36,
        Import::Http3ListenSetCert => 37,
        Import::Http3Request => 38,
        Import::Http3Listen => 39,
        Import::V8Serialize => 40,
        Import::V8Deserialize => 41,
        Import::OsPlatform => 42,
        Import::OsArch => 43,
        Import::OsHomeDir => 44,
        Import::OsTmpdir => 45,
        Import::OsHostname => 46,
        Import::HttpRequest => 47,
        Import::HttpRequestAsync => 48,
        Import::DnsLookup => 49,
        Import::DnsResolve4 => 50,
        Import::DnsResolve6 => 51,
        Import::DnsResolveCname => 52,
        Import::DnsResolveNs => 53,
        Import::DnsReverse => 54,
        Import::DnsResolveMx => 55,
        Import::DnsResolveTxt => 56,
        Import::DnsResolveSoa => 57,
        Import::ZlibDeflate => 58,
        Import::ZlibInflate => 59,
        Import::ZlibGzip => 60,
        Import::ZlibGunzip => 61,
        Import::ZlibZstdCompress => 62,
        Import::ZlibZstdDecompress => 63,
        Import::StateGet => 64,
        Import::StateSet => 65,
        Import::StateDelete => 66,
        Import::StateIncrement => 67,
        Import::ReadColumn => 68,
        Import::EmitRow => 69,
        Import::GetEnv => 70,
        Import::LastError => 71,
        Import::GetInput => 72,
        Import::GetInputLen => 73,
        Import::ColumnarReply => 74,
        Import::GetEnvelope => 75,
        Import::HttpListen => 76,
        Import::HttpReply => 77,
        Import::HttpClose => 78,
        Import::BcryptHash => 79,
        Import::BcryptVerify => 80,
        Import::BcryptGenSalt => 81,
        Import::Argon2Hash => 82,
        Import::Argon2Verify => 83,
        Import::Argon2NeedsRehash => 84,
        Import::JwtSign => 85,
        Import::JwtVerify => 86,
        Import::JwtDecode => 87,
        Import::SqliteOpen => 88,
        Import::SqliteRun => 89,
        Import::SqliteGet => 90,
        Import::SqliteAll => 91,
        Import::SqliteExec => 92,
        Import::SqliteClose => 93,
        Import::SharpRun => 94,
        Import::SharpMetadata => 95,
        Import::SharpStats => 96,
        Import::TsTranspile => 97,
        Import::ProcessExit => 98,
        Import::TimerSet => 99,
        Import::TimerClear => 100,
        Import::TimerUnref => 101,
        Import::TimerRef => 102,
        Import::WorkerSpawn => 103,
        Import::WorkerSpawnEnv => 104,
        Import::WorkerPid => 105,
        Import::WorkerPostMessage => 106,
        Import::WorkerTerminate => 107,
        Import::WorkerPostToParent => 108,
        Import::WorkerPostOnline => 109,
        Import::WorkerPostError => 110,
        Import::WorkerThreadId => 111,
        Import::WorkerIsMainThread => 112,
        Import::WorkerData => 113,
        Import::NetConnect => 114,
        Import::NetWrite => 115,
        Import::NetEnd => 116,
        Import::NetDestroy => 117,
        Import::NetPending => 118,
        Import::NetSetNoDelay => 119,
        Import::NetSetKeepAlive => 120,
        Import::NetListen => 121,
        Import::NetCloseServer => 122,
        Import::TlsConnect => 123,
        Import::TlsWrite => 124,
        Import::TlsEnd => 125,
        Import::TlsDestroy => 126,
        Import::TlsPending => 127,
        Import::TlsListen => 128,
        Import::TlsCloseServer => 129,
        Import::DgramBind => 130,
        Import::DgramSend => 131,
        Import::DgramClose => 132,
        Import::DgramAddress => 133,
        Import::ChildProcessExec => 134,
        Import::WasmCompile => 135,
        Import::WasmDropModule => 136,
        Import::WasmModuleExports => 137,
        Import::WasmModuleImports => 138,
        Import::WasmInstantiate => 139,
        Import::WasmDropInstance => 140,
        Import::WasmCallExport => 141,
        Import::WasmMemoryRead => 142,
        Import::WasmMemoryWrite => 143,
        Import::WasmMemorySize => 144,
        Import::InspectorOpen => 145,
        Import::InspectorClose => 146,
        Import::InspectorSend => 147,
    }
}

/// The function at place `n` in the list of all.
pub fn import_at(n: usize) -> (r: Option<Import>)
    ensures
        match r {
            Some(i) => place_of(i) == n,
            None => n >= IMPORTS,
        },
{
    match n {
        0 => Some(Import::FsExists),
        1 => Some(Import::FsReadFile),
        2 => Some(Import::FsWriteFile),
        3 => Some(Import::FsStat),
        4 => Some(Import::FsUnlink),
        5 => Some(Import::FsRename),
        6 => Some(Import::FsMkdir),
        7 => Some(Import::FsReaddir),
        8 => Some(Import::FsRealpath),
        9 => Some(Import::FsReadlink),
        10 => Some(Import::FsCp),
        11 => Some(Import::FsOpendir),
        12 => Some(Import::FsWatchPoll),
        13 => Some(Import::FsReadChunk),
        14 => Some(Import::FsWriteChunk),
        15 => Some(Import::FsSize),
        16 => Some(Import::CryptoHash),
        17 => Some(Import::CryptoRandomBytes),
        18 => Some(Import::CryptoSubtleOp),
        19 => Some(Import::CryptoCheckPrime),
        20 => Some(Import::CryptoGeneratePrime),
        21 => Some(Import::CryptoAesGcmEncrypt),
        22 => Some(Import::CryptoAesGcmDecrypt),
        23 => Some(Import::CryptoAesCbcEncrypt),
        24 => Some(Import::CryptoAesCbcDecrypt),
        25 => Some(Import::CryptoPbkdf2),
        26 => Some(Import::CryptoScrypt),
        27 => Some(Import::CryptoSign),
        28 => Some(Import::CryptoVerify),
        29 => Some(Import::CryptoSignOpen),
        30 => Some(Import::CryptoSignUpdate),
        31 => Some(Import::CryptoSignFinalize),
        32 => Some(Import::CryptoVerifyFinalize),
        33 => Some(Import::CryptoHashOpen),
        34 => Some(Import::CryptoHmacOpen),
        35 => Some(Import::CryptoHashUpdate),
        36 => Some(Import::CryptoHashDigest),
        37 => Some(Import::Http3ListenSetCert),
        38 => Some(Import::Http3Request),
        39 => Some(Import::Http3Listen),
        40 => Some(Import::V8Serialize),
        41 => Some(Import::V8Deserialize),
        42 => Some(Import::OsPlatform),
        43 => Some(Import::OsArch),
        44 => Some(Import::OsHomeDir),
        45 => Some(Import::OsTmpdir),
        46 => Some(Import::OsHostname),
        47 => Some(Import::HttpRequest),
        48 => Some(Import::HttpRequestAsync),
        49 => Some(Import::DnsLookup),
        50 => Some(Import::DnsResolve4),
        51 => Some(Import::DnsResolve6),
        52 => Some(Import::DnsResolveCname),
        53 => Some(Import::DnsResolveNs),
        54 => Some(Import::DnsReverse),
        55 => Some(Import::DnsResolveMx),
        56 => Some(Import::DnsResolveTxt),
        57 => Some(Import::DnsResolveSoa),
        58 => Some(Import::ZlibDeflate),
        59 => Some(Import::ZlibInflate),
        60 => Some(Import::ZlibGzip),
        61 => Some(Import::ZlibGunzip),
        62 => Some(Import::ZlibZstdCompress),
        63 => Some(Import::ZlibZstdDecompress),
        64 => Some(Import::StateGet),
        65 => Some(Import::StateSet),
        66 => Some(Import::StateDelete),
        67 => Some(Import::StateIncrement),
        68 => Some(Import::ReadColumn),
        69 => Some(Import::EmitRow),
        70 => Some(Import::GetEnv),
        71 => Some(Import::LastError),
        72 => Some(Import::GetInput),
        73 => Some(Import::GetInputLen),
        74 => Some(Import::ColumnarReply),
        75 => Some(Import::GetEnvelope),
        76 => Some(Import::HttpListen),
        77 => Some(Import::HttpReply),
        78 => Some(Import::HttpClose),
        79 => Some(Import::BcryptHash),
        80 => Some(Import::BcryptVerify),
        81 => Some(Import::BcryptGenSalt),
        82 => Some(Import::Argon2Hash),
        83 => Some(Import::Argon2Verify),
        84 => Some(Import::Argon2NeedsRehash),
        85 => Some(Import::JwtSign),
        86 => Some(Import::JwtVerify),
        87 => Some(Import::JwtDecode),
        88 => Some(Import::SqliteOpen),
        89 => Some(Import::SqliteRun),
        90 => Some(Import::SqliteGet),
        91 => Some(Import::SqliteAll),
        92 => Some(Import::SqliteExec),
        93 => Some(Import::SqliteClose),
        94 => Some(Import::SharpRun),
        95 => Some(Import::SharpMetadata),
        96 => Some(Import::SharpStats),
        97 => Some(Import::TsTranspile),
        98 => Some(Import::ProcessExit),
        99 => Some(Import::TimerSet),
        100 => Some(Import::TimerClear),
        101 => Some(Import::TimerUnref),
        102 => Some(Import::TimerRef),
        103 => Some(Import::WorkerSpawn),
        104 => Some(Import::WorkerSpawnEnv),
        105 => Some(Import::WorkerPid),
        106 => Some(Import::WorkerPostMessage),
        107 => Some(Import::WorkerTerminate),
        108 => Some(Import::WorkerPostToParent),
        109 => Some(Import::WorkerPostOnline),
        110 => Some(Import::WorkerPostError),
        111 => Some(Import::WorkerThreadId),
        112 => Some(Import::WorkerIsMainThread),
        113 => Some(Import::WorkerData),
        114 => Some(Import::NetConnect),
        115 => Some(Import::NetWrite),
        116 => Some(Import::NetEnd),
        117 => Some(Import::NetDestroy),
        118 => Some(Import::NetPending),
        119 => Some(Import::NetSetNoDelay),
        120 => Some(Import::NetSetKeepAlive),
        121 => Some(Import::NetListen),
        122 => Some(Import::NetCloseServer),
        123 => Some(Import::TlsConnect),
        124 => Some(Import::TlsWrite),
        125 => Some(Import::TlsEnd),
        126 => Some(Import::TlsDestroy),
        127 => Some(Import::TlsPending),
        128 => Some(Import::TlsListen),
        129 => Some(Import::TlsCloseServer),
        130 => Some(Import::DgramBind),
        131 => Some(Import::DgramSend),
        132 => Some(Import::DgramClose),
        133 => Some(Import::DgramAddress),
        134 => Some(Import::ChildProcessExec),
        135 => Some(Import::WasmCompile),
        136 => Some(Import::WasmDropModule),
        137 => Some(Import::WasmModuleExports),
        138 => Some(Import::WasmModuleImports),
        139 => Some(Import::WasmInstantiate),
        140 => Some(Import::WasmDropInstance),
        141 => Some(Import::WasmCallExport),
        142 => Some(Import::WasmMemoryRead),
        143 => Some(Import::WasmMemoryWrite),
        144 => Some(Import::WasmMemorySize),
        145 => Some(Import::InspectorOpen),
        146 => Some(Import::InspectorClose),
        147 => Some(Import::InspectorSend),
        _ => None,
    }
}

/// Every function has a place of its own in the list of all.
pub proof fn every_import_is_listed(a: Import, b: Import)
    ensures
        0 <= place_of(a) < IMPORTS,
        place_of(a) == place_of(b) ==> a == b,
{
}

/// What a function returns to the guest.
#[derive(Debug, Clone, Copy, PartialEq, Eq, Structural)]
pub enum Returned {
    /// A number of 32 bits.
    Word,
    /// A number of 64 bits.
    Long,
    Nothing,
}

/// What a function returns to the guest.
pub open spec fn returned_by(i: Import) -> Returned {
    match i {
        Import::CryptoSignOpen | Import::CryptoHashOpen | Import::CryptoHmacOpen
        | Import::HttpRequestAsync | Import::StateIncrement | Import::SqliteOpen
        | Import::WasmCompile | Import::WasmInstantiate | Import::WasmMemorySize => Returned::Long,
        Import::ProcessExit | Import::TimerClear | Import::TimerUnref | Import::TimerRef => Returned::Nothing,
        _ => Returned::Word,
    }
}

impl Import {
    /// What the function returns to the guest.
    pub fn result_kind(self) -> (r: Returned)
        ensures
            r == returned_by(self),
    {
        match self {
            Import::CryptoSignOpen | Import::CryptoHashOpen | Import::CryptoHmacOpen
            | Import::HttpRequestAsync | Import::StateIncrement | Import::SqliteOpen
            | Import::WasmCompile | Import::WasmInstantiate | Import::WasmMemorySize => Returned::Long,
            Import::ProcessExit | Import::TimerClear | Import::TimerUnref | Import::TimerRef => Returned::Nothing,
            _ => Returned::Word,
        }
    }
}

/// What a parameter, or a pair of them, stands for.
#[derive(Debug, Clone, Copy, PartialEq, Eq, Structural)]
pub enum Form {
    /// A place with text.
    Text,
    /// A place with text; any other place stands for no text.
    TextOrEmpty,
    /// A place with bytes.
    Bytes,
    /// A place with bytes, or nothing where its length is not above zero.
    BytesIfAny,
    /// A place with base64.
    Base64,
    /// A place with hexadecimal, white space at its ends aside.
    Hex,
    /// A place with the name of an encoding; none of length zero, where it is `hex`.
    Encoding,
    /// A port, from this number on.
    Port(i32),
    /// A number of milliseconds.
    Interval,
    /// A number of 32 bits.
    Word,
    /// A number of 64 bits.
    Long,
    /// A place for the answer.
    Out,
}

/// How many parameters stand for one thing of this form.
pub open spec fn width_of(f: Form) -> int {
    match f {
        Form::Port(_) | Form::Interval | Form::Word | Form::Long => 1,
        _ => 2,
    }
}

impl Form {
    /// How many parameters stand for one thing of this form.
    pub fn width(self) -> (r: usize)
        ensures
            r == width_of(self),
    {
        match self {
            Form::Port(_) | Form::Interval | Form::Word | Form::Long => 1,
            _ => 2,
        }
    }
}

/// A code that is answered: a number, or what the coordinator in charge calls it.
#[derive(Debug, Clone, Copy, PartialEq, Eq, Structural)]
pub enum Code {
    Fixed(i32),
    Other,
    NoDaemon,
    BadPort,
    BadHost,
    BadPayload,
    BadCert,
}

/// The codes of a coordinator.
#[derive(Debug, Clone, Copy, PartialEq, Eq, Structural)]
pub struct Codes {
    pub other: i32,
    pub no_daemon: i32,
    pub bad_port: i32,
    pub bad_host: i32,
    pub bad_payload: i32,
    pub bad_cert: i32,
}

/// The number of a code.
pub open spec fn code_number(c: Code, codes: Codes) -> i32 {
    match c {
        Code::Fixed(n) => n,
        Code::Other => codes.other,
        Code::NoDaemon => codes.no_daemon,
        Code::BadPort => codes.bad_port,
        Code::BadHost => codes.bad_host,
        Code::BadPayload => codes.bad_payload,
        Code::BadCert => codes.bad_cert,
    }
}

impl Codes {
    /// The number of a code.
    pub fn number(&self, c: Code) -> (r: i32)
        ensures
            r == code_number(c, *self),
    {
        match c {
            Code::Fixed(n) => n,
            Code::Other => self.other,
            Code::NoDaemon => self.no_daemon,
            Code::BadPort => self.bad_port,
            Code::BadHost => self.bad_host,
            Code::BadPayload => self.bad_payload,
            Code::BadCert => self.bad_cert,
        }
    }
}

/// What is said of base64 that is none.
pub enum Broken {
    Silent,
    Says(&'static str),
    /// This, and behind it what is wrong.
    Prefix(&'static str),
}

/// [`Broken`] over sequences.
pub enum BrokenView {
    Silent,
    Says(Seq<char>),
    Prefix(Seq<char>),
}

/// One thing that the parameters stand for: its form, the code where it does not do, and what is
/// said then. Of a port that is out of range, the number is said behind the note.
pub struct Arg {
    pub form: Form,
    pub code: Code,
    pub note: Option<&'static str>,
    pub broken: Broken,
}

/// [`Arg`] over sequences.
pub struct ArgView {
    pub form: Form,
    pub code: Code,
    pub note: Option<Seq<char>>,
    pub broken: BrokenView,
}

/// A note over sequences.
pub open spec fn note_view(n: Option<&'static str>) -> Option<Seq<char>> {
    match n {
        Some(s) => Some(s@),
        None => None,
    }
}

impl View for Arg {
    type V = ArgView;

    open spec fn view(&self) -> ArgView {
        ArgView {
            form: self.form,
            code: self.code,
            note: note_view(self.note),
            broken: match self.broken {
                Broken::Silent => BrokenView::Silent,
                Broken::Says(s) => BrokenView::Says(s@),
                Broken::Prefix(s) => BrokenView::Prefix(s@),
            },
        }
    }
}

/// Whether a function needs a service, and what is answered where that is not there.
pub enum Presence {
    Needless,
    /// Asked for before the parameters are looked at.
    First(Code, Option<&'static str>),
    /// Asked for once the parameters do.
    Last(Code, Option<&'static str>),
}

/// [`Presence`] over sequences.
pub enum PresenceView {
    Needless,
    First(Code, Option<Seq<char>>),
    Last(Code, Option<Seq<char>>),
}

/// How a function is called.
pub struct Shape {
    pub presence: Presence,
    /// What is answered to a guest without a memory.
    pub no_memory: Code,
    pub memory_note: Option<&'static str>,
    /// What the parameters stand for, in the order in which they are looked at.
    pub args: Vec<Arg>,
}

/// [`Shape`] over sequences.
pub struct ShapeView {
    pub presence: PresenceView,
    pub no_memory: Code,
    pub memory_note: Option<Seq<char>>,
    pub args: Seq<ArgView>,
}

/// Arguments over sequences.
pub open spec fn arg_views(v: Seq<Arg>) -> Seq<ArgView> {
    Seq::new(v.len(), |i: int| v[i]@)
}

impl View for Shape {
    type V = ShapeView;

    open spec fn view(&self) -> ShapeView {
        ShapeView {
            presence: match self.presence {
                Presence::Needless => PresenceView::Needless,
                Presence::First(c, n) => PresenceView::First(c, note_view(n)),
                Presence::Last(c, n) => PresenceView::Last(c, note_view(n)),
            },
            no_memory: self.no_memory,
            memory_note: note_view(self.memory_note),
            args: arg_views(self.args@),
        }
    }
}

/// A thing of this form, of which nothing is said.
pub open spec fn an_plain(form: Form, code: Code) -> ArgView {
    ArgView { form, code, note: None, broken: BrokenView::Silent }
}

/// A thing of this form, with what is said of it.
pub open spec fn an_noted(form: Form, code: Code, note: Seq<char>) -> ArgView {
    ArgView { form, code, note: Some(note), broken: BrokenView::Silent }
}

/// Base64, with what is said of it.
pub open spec fn an_encoded(code: Code, note: Option<Seq<char>>, broken: BrokenView) -> ArgView {
    ArgView { form: Form::Base64, code, note, broken }
}

fn plain(form: Form, code: Code) -> (r: Arg)
    ensures
        r@ == an_plain(form, code),
{
    Arg { form, code, note: None, broken: Broken::Silent }
}

fn noted(form: Form, code: Code, note: &'static str) -> (r: Arg)
    ensures
        r@ == an_noted(form, code, note@),
{
    Arg { form, code, note: Some(note), broken: Broken::Silent }
}

fn encoded(code: Code, note: Option<&'static str>, broken: Broken) -> (r: Arg)
    ensures
        r@ == (Arg { form: Form::Base64, code, note, broken })@,
{
    Arg { form: Form::Base64, code, note, broken }
}

fn no_args() -> (r: Vec<Arg>)
    ensures
        arg_views(r@) == Seq::<ArgView>::empty(),
{
    let v: Vec<Arg> = Vec::new();
    assert(arg_views(v@) =~= Seq::<ArgView>::empty());
    v
}

fn args1(a: Arg) -> (r: Vec<Arg>)
    ensures
        arg_views(r@) == seq![a@],
{
    let mut v: Vec<Arg> = Vec::new();
    v.push(a);
    assert(arg_views(v@) =~= seq![a@]);
    v
}

fn args2(a: Arg, b: Arg) -> (r: Vec<Arg>)
    ensures
        arg_views(r@) == seq![a@, b@],
{
    let mut v: Vec<Arg> = Vec::new();
    v.push(a);
    v.push(b);
    assert(arg_views(v@) =~= seq![a@, b@]);
    v
}

fn args3(a: Arg, b: Arg, c: Arg) -> (r: Vec<Arg>)
    ensures
        arg_views(r@) == seq![a@, b@, c@],
{
    let mut v: Vec<Arg> = Vec::new();
    v.push(a);
    v.push(b);
    v.push(c);
    assert(arg_views(v@) =~= seq![a@, b@, c@]);
    v
}

fn args4(a: Arg, b: Arg, c: Arg, d: Arg) -> (r: Vec<Arg>)
    ensures
        arg_views(r@) == seq![a@, b@, c@, d@],
{
    let mut v: Vec<Arg> = Vec::new();
    v.push(a);
    v.push(b);
    v.push(c);
    v.push(d);
    assert(arg_views(v@) =~= seq![a@, b@, c@, d@]);
    v
}

fn args5(a: Arg, b: Arg, c: Arg, d: Arg, e: Arg) -> (r: Vec<Arg>)
    ensures
        arg_views(r@) == seq![a@, b@, c@, d@, e@],
{
    let mut v: Vec<Arg> = Vec::new();
    v.push(a);
    v.push(b);
    v.push(c);
    v.push(d);
    v.push(e);
    assert(arg_views(v@) =~= seq![a@, b@, c@, d@, e@]);
    v
}

fn args6(a: Arg, b: Arg, c: Arg, d: Arg, e: Arg, f: Arg) -> (r: Vec<Arg>)
    ensures
        arg_views(r@) == seq![a@, b@, c@, d@, e@, f@],
{
    let mut v: Vec<Arg> = Vec::new();
    v.push(a);
    v.push(b);
    v.push(c);
    v.push(d);
    v.push(e);
    v.push(f);
    assert(arg_views(v@) =~= seq![a@, b@, c@, d@, e@, f@]);
    v
}

fn args7(a: Arg, b: Arg, c: Arg, d: Arg, e: Arg, f: Arg, g: Arg) -> (r: Vec<Arg>)
    ensures
        arg_views(r@) == seq![a@, b@, c@, d@, e@, f@, g@],
{
    let mut v: Vec<Arg> = Vec::new();
    v.push(a);
    v.push(b);
    v.push(c);
    v.push(d);
    v.push(e);
    v.push(f);
    v.push(g);
    assert(arg_views(v@) =~= seq![a@, b@, c@, d@, e@, f@, g@]);
    v
}

/// How a function is called.
pub open spec fn shape_of(i: Import) -> ShapeView {
    match i {
        Import::FsExists | Import::FsUnlink | Import::StateDelete | Import::EmitRow => ShapeView {
            presence: PresenceView::Needless,
            no_memory: Code::Fixed(E_OTHER),
            memory_note: None,
            args: seq![
                an_plain(Form::Text, Code::Fixed(E_OTHER)),
            ],
        },
        Import::FsReadFile => ShapeView {
            presence: PresenceView::Needless,
            no_memory: Code::Fixed(E_OTHER),
            memory_note: Some("memory export missing"@),
            args: seq![
                an_noted(Form::Text, Code::Fixed(E_OTHER), "invalid utf-8 in path"@),
                an_plain(Form::Out, Code::Fixed(0)),
            ],
        },
        Import::FsWriteFile => ShapeView {
            presence: PresenceView::Needless,
            no_memory: Code::Fixed(E_OTHER),
            memory_note: None,
            args: seq![
                an_plain(Form::Text, Code::Fixed(E_OTHER)),
                an_encoded(Code::Fixed(E_OTHER), Some("invalid utf-8 in fs write data"@), BrokenView::Prefix("fs.write base64: "@)),
            ],
        },
        Import::FsStat | Import::FsReaddir | Import::FsRealpath | Import::FsReadlink
        | Import::FsOpendir | Import::FsSize | Import::V8Serialize | Import::V8Deserialize
        | Import::DnsLookup | Import::StateGet | Import::ReadColumn | Import::GetEnv => ShapeView {
            presence: PresenceView::Needless,
            no_memory: Code::Fixed(E_OTHER),
            memory_note: None,
            args: seq![
                an_plain(Form::Text, Code::Fixed(E_OTHER)),
                an_plain(Form::Out, Code::Fixed(0)),
            ],
        },
        Import::FsRename | Import::Http3ListenSetCert => ShapeView {
            presence: PresenceView::Needless,
            no_memory: Code::Fixed(E_OTHER),
            memory_note: None,
            args: seq![
                an_plain(Form::Text, Code::Fixed(E_OTHER)),
                an_plain(Form::Text, Code::Fixed(E_OTHER)),
            ],
        },
        Import::FsMkdir => ShapeView {
            presence: PresenceView::Needless,
            no_memory: Code::Fixed(E_OTHER),
            memory_note: None,
            args: seq![
                an_plain(Form::Text, Code::Fixed(E_OTHER)),
                an_plain(Form::Word, Code::Fixed(0)),
            ],
        },
        Import::FsCp => ShapeView {
            presence: PresenceView::Needless,
            no_memory: Code::Fixed(E_OTHER),
            memory_note: None,
            args: seq![
                an_plain(Form::Text, Code::Fixed(E_OTHER)),
                an_plain(Form::Text, Code::Fixed(E_OTHER)),
                an_plain(Form::Word, Code::Fixed(0)),
            ],
        },
        Import::FsWatchPoll => ShapeView {
            presence: PresenceView::Needless,
            no_memory: Code::Fixed(E_OTHER),
            memory_note: None,
            args: seq![
                an_plain(Form::Text, Code::Fixed(E_OTHER)),
                an_plain(Form::Interval, Code::Fixed(E_OTHER)),
                an_plain(Form::Out, Code::Fixed(0)),
            ],
        },
        Import::FsReadChunk => ShapeView {
            presence: PresenceView::Needless,
            no_memory: Code::Fixed(E_OTHER),
            memory_note: None,
            args: seq![
                an_plain(Form::Text, Code::Fixed(E_OTHER)),
                an_plain(Form::Word, Code::Fixed(0)),
                an_plain(Form::Word, Code::Fixed(0)),
                an_plain(Form::Word, Code::Fixed(0)),
                an_plain(Form::Out, Code::Fixed(0)),
            ],
        },
        Import::FsWriteChunk => ShapeView {
            presence: PresenceView::Needless,
            no_memory: Code::Fixed(E_OTHER),
            memory_note: None,
            args: seq![
                an_plain(Form::Text, Code::Fixed(E_OTHER)),
                an_plain(Form::Word, Code::Fixed(0)),
                an_plain(Form::Word, Code::Fixed(0)),
                an_plain(Form::Base64, Code::Fixed(E_OTHER)),
            ],
        },
        Import::CryptoHash => ShapeView {
            presence: PresenceView::Needless,
            no_memory: Code::Fixed(E_OTHER),
            memory_note: None,
            args: seq![
                an_plain(Form::Text, Code::Fixed(E_OTHER)),
                an_plain(Form::Bytes, Code::Fixed(E_OTHER)),
                an_plain(Form::Out, Code::Fixed(0)),
            ],
        },
        Import::CryptoRandomBytes => ShapeView {
            presence: PresenceView::Needless,
            no_memory: Code::Fixed(E_OTHER),
            memory_note: None,
            args: seq![
                an_plain(Form::Word, Code::Fixed(0)),
                an_plain(Form::Out, Code::Fixed(0)),
            ],
        },
        Import::CryptoSubtleOp | Import::DnsResolveSoa => ShapeView {
            presence: PresenceView::Needless,
            no_memory: Code::Fixed(E_OTHER),
            memory_note: None,
            args: seq![
                an_plain(Form::Text, Code::Fixed(E_OTHER)),
                an_plain(Form::Text, Code::Fixed(E_OTHER)),
                an_plain(Form::Out, Code::Fixed(0)),
            ],
        },
        Import::CryptoCheckPrime => ShapeView {
            presence: PresenceView::Needless,
            no_memory: Code::Fixed(E_OTHER),
            memory_note: None,
            args: seq![
                an_plain(Form::Hex, Code::Fixed(E_OTHER)),
                an_plain(Form::Word, Code::Fixed(0)),
            ],
        },
        Import::CryptoGeneratePrime => ShapeView {
            presence: PresenceView::Needless,
            no_memory: Code::Fixed(E_OTHER),
            memory_note: None,
            args: seq![
                an_plain(Form::Word, Code::Fixed(0)),
                an_plain(Form::Word, Code::Fixed(0)),
                an_plain(Form::Out, Code::Fixed(0)),
            ],
        },
        Import::CryptoAesGcmEncrypt | Import::CryptoAesGcmDecrypt => ShapeView {
            presence: PresenceView::Needless,
            no_memory: Code::Fixed(E_OTHER),
            memory_note: None,
            args: seq![
                an_plain(Form::Text, Code::Fixed(E_OTHER)),
                an_plain(Form::Base64, Code::Fixed(E_OTHER)),
                an_plain(Form::Base64, Code::Fixed(E_OTHER)),
                an_plain(Form::Base64, Code::Fixed(E_OTHER)),
                an_plain(Form::Base64, Code::Fixed(E_OTHER)),
                an_plain(Form::Out, Code::Fixed(0)),
            ],
        },
        Import::CryptoAesCbcEncrypt | Import::CryptoAesCbcDecrypt => ShapeView {
            presence: PresenceView::Needless,
            no_memory: Code::Fixed(E_OTHER),
            memory_note: None,
            args: seq![
                an_plain(Form::Text, Code::Fixed(E_OTHER)),
                an_plain(Form::Base64, Code::Fixed(E_OTHER)),
                an_plain(Form::Base64, Code::Fixed(E_OTHER)),
                an_plain(Form::Base64, Code::Fixed(E_OTHER)),
                an_plain(Form::Out, Code::Fixed(0)),
            ],
        },
        Import::CryptoPbkdf2 => ShapeView {
            presence: PresenceView::Needless,
            no_memory: Code::Fixed(E_OTHER),
            memory_note: None,
            args: seq![
                an_plain(Form::Text, Code::Fixed(E_OTHER)),
                an_plain(Form::Text, Code::Fixed(E_OTHER)),
                an_plain(Form::Base64, Code::Fixed(E_OTHER)),
                an_plain(Form::Word, Code::Fixed(0)),
                an_plain(Form::Word, Code::Fixed(0)),
                an_plain(Form::Out, Code::Fixed(0)),
            ],
        },
        Import::CryptoScrypt => ShapeView {
            presence: PresenceView::Needless,
            no_memory: Code::Fixed(E_OTHER),
            memory_note: None,
            args: seq![
                an_plain(Form::Text, Code::Fixed(E_OTHER)),
                an_plain(Form::Base64, Code::Fixed(E_OTHER)),
                an_plain(Form::Word, Code::Fixed(0)),
                an_plain(Form::Word, Code::Fixed(0)),
                an_plain(Form::Word, Code::Fixed(0)),
                an_plain(Form::Word, Code::Fixed(0)),
                an_plain(Form::Out, Code::Fixed(0)),
            ],
        },
        Import::CryptoSign => ShapeView {
            presence: PresenceView::Needless,
            no_memory: Code::Fixed(E_OTHER),
            memory_note: None,
            args: seq![
                an_plain(Form::Text, Code::Fixed(E_OTHER)),
                an_plain(Form::Text, Code::Fixed(E_OTHER)),
                an_plain(Form::Base64, Code::Fixed(E_OTHER)),
                an_plain(Form::Out, Code::Fixed(0)),
            ],
        },
        Import::CryptoVerify => ShapeView {
            presence: PresenceView::Needless,
            no_memory: Code::Fixed(E_OTHER),
            memory_note: None,
            args: seq![
                an_plain(Form::Text, Code::Fixed(E_OTHER)),
                an_plain(Form::Text, Code::Fixed(E_OTHER)),
                an_plain(Form::Base64, Code::Fixed(E_OTHER)),
                an_plain(Form::Base64, Code::Fixed(E_OTHER)),
            ],
        },
        Import::CryptoSignOpen | Import::CryptoHashOpen => ShapeView {
            presence: PresenceView::Needless,
            no_memory: Code::Fixed(0),
            memory_note: None,
            args: seq![
                an_plain(Form::Text, Code::Fixed(0)),
            ],
        },
        Import::CryptoSignUpdate | Import::CryptoHashUpdate => ShapeView {
            presence: PresenceView::Needless,
            no_memory: Code::Fixed(E_OTHER),
            memory_note: None,
            args: seq![
                an_plain(Form::Long, Code::Fixed(0)),
                an_plain(Form::Base64, Code::Fixed(E_OTHER)),
            ],
        },
        Import::CryptoSignFinalize | Import::WasmCallExport => ShapeView {
            presence: PresenceView::Needless,
            no_memory: Code::Fixed(E_OTHER),
            memory_note: None,
            args: seq![
                an_plain(Form::Long, Code::Fixed(0)),
                an_plain(Form::Text, Code::Fixed(E_OTHER)),
                an_plain(Form::Text, Code::Fixed(E_OTHER)),
                an_plain(Form::Out, Code::Fixed(0)),
            ],
        },
        Import::CryptoVerifyFinalize => ShapeView {
            presence: PresenceView::Needless,
            no_memory: Code::Fixed(E_OTHER),
            memory_note: None,
            args: seq![
                an_plain(Form::Long, Code::Fixed(0)),
                an_plain(Form::Text, Code::Fixed(E_OTHER)),
                an_plain(Form::Text, Code::Fixed(E_OTHER)),
                an_plain(Form::Base64, Code::Fixed(E_OTHER)),
            ],
        },
        Import::CryptoHmacOpen => ShapeView {
            presence: PresenceView::Needless,
            no_memory: Code::Fixed(0),
            memory_note: None,
            args: seq![
                an_plain(Form::Text, Code::Fixed(0)),
                an_encoded(Code::Fixed(0), None, BrokenView::Says("hmac key: invalid base64"@)),
            ],
        },
        Import::CryptoHashDigest => ShapeView {
            presence: PresenceView::Needless,
            no_memory: Code::Fixed(E_OTHER),
            memory_note: None,
            args: seq![
                an_plain(Form::Long, Code::Fixed(0)),
                an_plain(Form::Encoding, Code::Fixed(E_OTHER)),
                an_plain(Form::Out, Code::Fixed(0)),
            ],
        },
        Import::Http3Request => ShapeView {
            presence: PresenceView::Last(Code::Fixed(FAILED), None),
            no_memory: Code::Fixed(E_OTHER),
            memory_note: None,
            args: seq![
                an_plain(Form::Text, Code::Fixed(E_OTHER)),
                an_plain(Form::Text, Code::Fixed(E_OTHER)),
                an_plain(Form::Bytes, Code::Fixed(E_OTHER)),
                an_plain(Form::Out, Code::Fixed(0)),
            ],
        },
        Import::Http3Listen | Import::TimerSet => ShapeView {
            presence: PresenceView::First(Code::Fixed(FAILED), None),
            no_memory: Code::Fixed(E_OTHER),
            memory_note: None,
            args: seq![
                an_plain(Form::Word, Code::Fixed(0)),
                an_plain(Form::Word, Code::Fixed(0)),
            ],
        },
        Import::OsPlatform | Import::OsArch | Import::OsHomeDir | Import::OsTmpdir
        | Import::OsHostname | Import::LastError | Import::GetInput | Import::GetEnvelope => ShapeView {
            presence: PresenceView::Needless,
            no_memory: Code::Fixed(E_OTHER),
            memory_note: None,
            args: seq![
                an_plain(Form::Out, Code::Fixed(0)),
            ],
        },
        Import::HttpRequest => ShapeView {
            presence: PresenceView::Needless,
            no_memory: Code::Fixed(E_OTHER),
            memory_note: None,
            args: seq![
                an_plain(Form::Text, Code::Fixed(E_OTHER)),
                an_plain(Form::Text, Code::Fixed(E_OTHER)),
                an_plain(Form::BytesIfAny, Code::Fixed(E_OTHER)),
                an_plain(Form::Out, Code::Fixed(0)),
            ],
        },
        Import::HttpRequestAsync => ShapeView {
            presence: PresenceView::Last(Code::Fixed(FAILED), None),
            no_memory: Code::Fixed(FAILED),
            memory_note: None,
            args: seq![
                an_plain(Form::Text, Code::Fixed(FAILED)),
                an_plain(Form::Text, Code::Fixed(FAILED)),
                an_plain(Form::BytesIfAny, Code::Fixed(FAILED)),
            ],
        },
        Import::DnsResolve4 | Import::DnsResolve6 | Import::DnsResolveCname
        | Import::DnsResolveNs | Import::DnsReverse | Import::DnsResolveMx
        | Import::DnsResolveTxt | Import::ChildProcessExec => ShapeView {
            presence: PresenceView::Needless,
            no_memory: Code::Fixed(E_OTHER),
            memory_note: None,
            args: seq![
                an_plain(Form::Text, Code::Fixed(E_OTHER)),
                an_plain(Form::TextOrEmpty, Code::Fixed(0)),
                an_plain(Form::Out, Code::Fixed(0)),
            ],
        },
        Import::ZlibDeflate | Import::ZlibInflate | Import::ZlibGzip | Import::ZlibGunzip
        | Import::ZlibZstdCompress | Import::ZlibZstdDecompress => ShapeView {
            presence: PresenceView::Needless,
            no_memory: Code::Fixed(E_OTHER),
            memory_note: None,
            args: seq![
                an_encoded(Code::Fixed(E_OTHER), None, BrokenView::Prefix("base64 decode: "@)),
                an_plain(Form::Out, Code::Fixed(0)),
            ],
        },
        Import::StateSet => ShapeView {
            presence: PresenceView::Needless,
            no_memory: Code::Fixed(E_OTHER),
            memory_note: None,
            args: seq![
                an_plain(Form::Text, Code::Fixed(E_OTHER)),
                an_plain(Form::Base64, Code::Fixed(E_OTHER)),
            ],
        },
        Import::StateIncrement => ShapeView {
            presence: PresenceView::Needless,
            no_memory: Code::Fixed(0),
            memory_note: None,
            args: seq![
                an_plain(Form::Text, Code::Fixed(0)),
                an_plain(Form::Long, Code::Fixed(0)),
            ],
        },
        Import::GetInputLen => ShapeView {
            presence: PresenceView::Needless,
            no_memory: Code::Fixed(E_OTHER),
            memory_note: None,
            args: Seq::empty(),
        },
        Import::ColumnarReply => ShapeView {
            presence: PresenceView::Needless,
            no_memory: Code::Fixed(E_OTHER),
            memory_note: None,
            args: seq![
                an_plain(Form::Word, Code::Fixed(0)),
                an_plain(Form::Word, Code::Fixed(0)),
            ],
        },
        Import::HttpListen => ShapeView {
            presence: PresenceView::First(Code::Fixed(FAILED), Some("http.createServer requires daemon mode; run via `burn foo.js` CLI"@)),
            no_memory: Code::Fixed(E_OTHER),
            memory_note: None,
            args: seq![
                an_noted(Form::Port(1), Code::Fixed(E_OTHER), "http.listen: invalid port "@),
            ],
        },
        Import::HttpReply => ShapeView {
            presence: PresenceView::First(Code::Fixed(E_OTHER), None),
            no_memory: Code::Fixed(E_OTHER),
            memory_note: None,
            args: seq![
                an_plain(Form::Long, Code::Fixed(0)),
                an_plain(Form::Bytes, Code::Fixed(E_OTHER)),
            ],
        },
        Import::HttpClose | Import::WorkerPid | Import::NetPending | Import::TlsPending => ShapeView {
            presence: PresenceView::First(Code::Fixed(0), None),
            no_memory: Code::Fixed(E_OTHER),
            memory_note: None,
            args: seq![
                an_plain(Form::Word, Code::Fixed(0)),
            ],
        },
        Import::BcryptHash => ShapeView {
            presence: PresenceView::Last(Code::Fixed(FAILED), Some("shadow-bcrypt feature not enabled"@)),
            no_memory: Code::Fixed(E_OTHER),
            memory_note: None,
            args: seq![
                an_plain(Form::Text, Code::Fixed(E_OTHER)),
                an_plain(Form::Word, Code::Fixed(0)),
                an_plain(Form::Out, Code::Fixed(0)),
            ],
        },
        Import::BcryptVerify => ShapeView {
            presence: PresenceView::Last(Code::Fixed(FAILED), Some("shadow-bcrypt feature not enabled"@)),
            no_memory: Code::Fixed(E_OTHER),
            memory_note: None,
            args: seq![
                an_plain(Form::Text, Code::Fixed(E_OTHER)),
                an_plain(Form::Text, Code::Fixed(E_OTHER)),
            ],
        },
        Import::BcryptGenSalt => ShapeView {
            presence: PresenceView::First(Code::Fixed(FAILED), Some("shadow-bcrypt feature not enabled"@)),
            no_memory: Code::Fixed(E_OTHER),
            memory_note: None,
            args: seq![
                an_plain(Form::Word, Code::Fixed(0)),
                an_plain(Form::Out, Code::Fixed(0)),
            ],
        },
        Import::Argon2Hash => ShapeView {
            presence: PresenceView::Last(Code::Fixed(FAILED), Some("shadow-argon2 feature not enabled"@)),
            no_memory: Code::Fixed(E_OTHER),
            memory_note: None,
            args: seq![
                an_plain(Form::Text, Code::Fixed(E_OTHER)),
                an_plain(Form::Word, Code::Fixed(0)),
                an_plain(Form::Word, Code::Fixed(0)),
                an_plain(Form::Word, Code::Fixed(0)),
                an_plain(Form::Word, Code::Fixed(0)),
                an_plain(Form::Out, Code::Fixed(0)),
            ],
        },
        Import::Argon2Verify => ShapeView {
            presence: PresenceView::Last(Code::Fixed(FAILED), Some("shadow-argon2 feature not enabled"@)),
            no_memory: Code::Fixed(E_OTHER),
            memory_note: None,
            args: seq![
                an_plain(Form::Text, Code::Fixed(E_OTHER)),
                an_plain(Form::Text, Code::Fixed(E_OTHER)),
            ],
        },
        Import::Argon2NeedsRehash => ShapeView {
            presence: PresenceView::Last(Code::Fixed(FAILED), Some("shadow-argon2 feature not enabled"@)),
            no_memory: Code::Fixed(E_OTHER),
            memory_note: None,
            args: seq![
                an_plain(Form::Text, Code::Fixed(E_OTHER)),
                an_plain(Form::Word, Code::Fixed(0)),
                an_plain(Form::Word, Code::Fixed(0)),
                an_plain(Form::Word, Code::Fixed(0)),
                an_plain(Form::Word, Code::Fixed(0)),
            ],
        },
        Import::JwtSign | Import::JwtVerify => ShapeView {
            presence: PresenceView::Last(Code::Fixed(FAILED), Some("shadow-jsonwebtoken feature not enabled"@)),
            no_memory: Code::Fixed(E_OTHER),
            memory_note: None,
            args: seq![
                an_plain(Form::Text, Code::Fixed(E_OTHER)),
                an_plain(Form::Bytes, Code::Fixed(E_OTHER)),
                an_plain(Form::Text, Code::Fixed(E_OTHER)),
                an_plain(Form::Out, Code::Fixed(0)),
            ],
        },
        Import::JwtDecode => ShapeView {
            presence: PresenceView::Last(Code::Fixed(FAILED), Some("shadow-jsonwebtoken feature not enabled"@)),
            no_memory: Code::Fixed(E_OTHER),
            memory_note: None,
            args: seq![
                an_plain(Form::Text, Code::Fixed(E_OTHER)),
                an_plain(Form::Out, Code::Fixed(0)),
            ],
        },
        Import::SqliteOpen => ShapeView {
            presence: PresenceView::Last(Code::Fixed(FAILED), Some("shadow-sqlite3 feature not enabled"@)),
            no_memory: Code::Fixed(FAILED),
            memory_note: None,
            args: seq![
                an_plain(Form::Text, Code::Fixed(FAILED)),
            ],
        },
        Import::SqliteRun | Import::SqliteGet | Import::SqliteAll => ShapeView {
            presence: PresenceView::Last(Code::Fixed(E_OTHER), Some("shadow-sqlite3 feature not enabled"@)),
            no_memory: Code::Fixed(E_OTHER),
            memory_note: None,
            args: seq![
                an_plain(Form::Long, Code::Fixed(0)),
                an_plain(Form::Text, Code::Fixed(E_OTHER)),
                an_plain(Form::Text, Code::Fixed(E_OTHER)),
                an_plain(Form::Out, Code::Fixed(0)),
            ],
        },
        Import::SqliteExec => ShapeView {
            presence: PresenceView::Last(Code::Fixed(E_OTHER), Some("shadow-sqlite3 feature not enabled"@)),
            no_memory: Code::Fixed(E_OTHER),
            memory_note: None,
            args: seq![
                an_plain(Form::Long, Code::Fixed(0)),
                an_plain(Form::Text, Code::Fixed(E_OTHER)),
            ],
        },
        Import::SqliteClose => ShapeView {
            presence: PresenceView::First(Code::Fixed(E_OTHER), Some("shadow-sqlite3 feature not enabled"@)),
            no_memory: Code::Fixed(E_OTHER),
            memory_note: None,
            args: seq![
                an_plain(Form::Long, Code::Fixed(0)),
            ],
        },
        Import::SharpRun | Import::SharpMetadata | Import::SharpStats => ShapeView {
            presence: PresenceView::Last(Code::Fixed(E_OTHER), Some("shadow-sharp feature not enabled"@)),
            no_memory: Code::Fixed(E_OTHER),
            memory_note: None,
            args: seq![
                an_plain(Form::Text, Code::Fixed(E_OTHER)),
                an_plain(Form::Out, Code::Fixed(0)),
            ],
        },
        Import::TsTranspile => ShapeView {
            presence: PresenceView::Last(Code::Fixed(FAILED), None),
            no_memory: Code::Fixed(E_OTHER),
            memory_note: None,
            args: seq![
                an_plain(Form::Text, Code::Fixed(E_OTHER)),
                an_plain(Form::Text, Code::Fixed(E_OTHER)),
                an_plain(Form::Out, Code::Fixed(0)),
            ],
        },
        Import::ProcessExit | Import::TimerClear | Import::TimerUnref | Import::TimerRef => ShapeView {
            presence: PresenceView::Needless,
            no_memory: Code::Fixed(E_OTHER),
            memory_note: None,
            args: seq![
                an_plain(Form::Word, Code::Fixed(0)),
            ],
        },
        Import::WorkerSpawn => ShapeView {
            presence: PresenceView::Last(Code::NoDaemon, Some("worker_threads requires daemon mode; run via `burn foo.js`"@)),
            no_memory: Code::Other,
            memory_note: None,
            args: seq![
                an_noted(Form::Text, Code::Other, "worker_spawn: invalid path"@),
                an_noted(Form::Text, Code::Other, "worker_spawn: invalid worker_data"@),
            ],
        },
        Import::WorkerSpawnEnv => ShapeView {
            presence: PresenceView::Last(Code::NoDaemon, Some("worker_threads requires daemon mode; run via `burn foo.js`"@)),
            no_memory: Code::Other,
            memory_note: None,
            args: seq![
                an_noted(Form::Text, Code::Other, "worker_spawn_env: invalid path"@),
                an_noted(Form::Text, Code::Other, "worker_spawn_env: invalid worker_data"@),
                an_plain(Form::TextOrEmpty, Code::Fixed(0)),
            ],
        },
        Import::WorkerPostMessage => ShapeView {
            presence: PresenceView::Last(Code::NoDaemon, None),
            no_memory: Code::Other,
            memory_note: None,
            args: seq![
                an_plain(Form::Word, Code::Fixed(0)),
                an_noted(Form::Text, Code::Other, "worker_post: invalid payload"@),
            ],
        },
        Import::WorkerTerminate | Import::NetSetNoDelay => ShapeView {
            presence: PresenceView::First(Code::NoDaemon, None),
            no_memory: Code::Fixed(E_OTHER),
            memory_note: None,
            args: seq![
                an_plain(Form::Word, Code::Fixed(0)),
                an_plain(Form::Word, Code::Fixed(0)),
            ],
        },
        Import::WorkerPostToParent => ShapeView {
            presence: PresenceView::Last(Code::NoDaemon, None),
            no_memory: Code::Other,
            memory_note: None,
            args: seq![
                an_noted(Form::Text, Code::Other, "worker_post_parent: invalid payload"@),
            ],
        },
        Import::WorkerPostOnline => ShapeView {
            presence: PresenceView::First(Code::NoDaemon, None),
            no_memory: Code::Fixed(E_OTHER),
            memory_note: None,
            args: Seq::empty(),
        },
        Import::WorkerPostError => ShapeView {
            presence: PresenceView::Last(Code::NoDaemon, None),
            no_memory: Code::Other,
            memory_note: None,
            args: seq![
                an_plain(Form::Text, Code::Other),
                an_plain(Form::Text, Code::Other),
            ],
        },
        Import::WorkerThreadId => ShapeView {
            presence: PresenceView::First(Code::Fixed(0), None),
            no_memory: Code::Fixed(E_OTHER),
            memory_note: None,
            args: Seq::empty(),
        },
        Import::WorkerIsMainThread => ShapeView {
            presence: PresenceView::First(Code::Fixed(1), None),
            no_memory: Code::Fixed(E_OTHER),
            memory_note: None,
            args: Seq::empty(),
        },
        Import::WorkerData => ShapeView {
            presence: PresenceView::Needless,
            no_memory: Code::Other,
            memory_note: None,
            args: seq![
                an_plain(Form::Out, Code::Fixed(0)),
            ],
        },
        Import::NetConnect => ShapeView {
            presence: PresenceView::Last(Code::NoDaemon, Some("net.connect requires daemon mode"@)),
            no_memory: Code::Other,
            memory_note: None,
            args: seq![
                an_noted(Form::Text, Code::Other, "net_connect: invalid host"@),
                an_noted(Form::Port(1), Code::BadPort, "net_connect: invalid port "@),
            ],
        },
        Import::NetWrite => ShapeView {
            presence: PresenceView::Last(Code::NoDaemon, None),
            no_memory: Code::Other,
            memory_note: None,
            args: seq![
                an_plain(Form::Word, Code::Fixed(0)),
                an_noted(Form::Text, Code::BadPayload, "net_write: invalid payload"@),
            ],
        },
        Import::NetEnd | Import::NetDestroy | Import::NetCloseServer | Import::TlsEnd
        | Import::TlsDestroy | Import::TlsCloseServer => ShapeView {
            presence: PresenceView::First(Code::NoDaemon, None),
            no_memory: Code::Fixed(E_OTHER),
            memory_note: None,
            args: seq![
                an_plain(Form::Word, Code::Fixed(0)),
            ],
        },
        Import::NetSetKeepAlive => ShapeView {
            presence: PresenceView::First(Code::NoDaemon, None),
            no_memory: Code::Fixed(E_OTHER),
            memory_note: None,
            args: seq![
                an_plain(Form::Word, Code::Fixed(0)),
                an_plain(Form::Word, Code::Fixed(0)),
                an_plain(Form::Word, Code::Fixed(0)),
            ],
        },
        Import::NetListen => ShapeView {
            presence: PresenceView::Last(Code::NoDaemon, Some("net.createServer requires daemon mode"@)),
            no_memory: Code::Other,
            memory_note: None,
            args: seq![
                an_noted(Form::Text, Code::Other, "net_listen: invalid host"@),
                an_noted(Form::Port(0), Code::BadPort, "net_listen: invalid port "@),
            ],
        },
        Import::TlsConnect => ShapeView {
            presence: PresenceView::Last(Code::NoDaemon, Some("tls.connect requires daemon mode"@)),
            no_memory: Code::Other,
            memory_note: None,
            args: seq![
                an_noted(Form::Text, Code::Other, "tls_connect: invalid host"@),
                an_noted(Form::Port(1), Code::BadPort, "tls_connect: invalid port "@),
                an_plain(Form::TextOrEmpty, Code::Fixed(0)),
            ],
        },
        Import::TlsWrite => ShapeView {
            presence: PresenceView::Last(Code::NoDaemon, None),
            no_memory: Code::Other,
            memory_note: None,
            args: seq![
                an_plain(Form::Word, Code::Fixed(0)),
                an_noted(Form::Text, Code::BadPayload, "tls_write: invalid payload"@),
            ],
        },
        Import::TlsListen => ShapeView {
            presence: PresenceView::Last(Code::NoDaemon, Some("tls.createServer requires daemon mode"@)),
            no_memory: Code::Other,
            memory_note: None,
            args: seq![
                an_noted(Form::Text, Code::Other, "tls_listen: invalid host"@),
                an_noted(Form::Port(0), Code::BadPort, "tls_listen: invalid port "@),
                an_noted(Form::Text, Code::BadCert, "tls_listen: invalid cert PEM"@),
                an_noted(Form::Text, Code::BadCert, "tls_listen: invalid key PEM"@),
                an_plain(Form::TextOrEmpty, Code::Fixed(0)),
            ],
        },
        Import::DgramBind => ShapeView {
            presence: PresenceView::Last(Code::NoDaemon, Some("dgram.bind requires daemon mode"@)),
            no_memory: Code::Other,
            memory_note: None,
            args: seq![
                an_noted(Form::Text, Code::BadHost, "dgram.bind: invalid host"@),
                an_noted(Form::Port(0), Code::BadPort, "dgram.bind: invalid port "@),
            ],
        },
        Import::DgramSend => ShapeView {
            presence: PresenceView::Last(Code::NoDaemon, Some("dgram.send requires daemon mode"@)),
            no_memory: Code::Other,
            memory_note: None,
            args: seq![
                an_plain(Form::Word, Code::Fixed(0)),
                an_noted(Form::Text, Code::BadHost, "dgram.send: invalid host"@),
                an_noted(Form::Port(0), Code::BadPort, "dgram.send: invalid port "@),
                an_encoded(Code::BadPayload, Some("dgram.send: invalid payload"@), BrokenView::Prefix("net: payload base64: "@)),
            ],
        },
        Import::DgramClose => ShapeView {
            presence: PresenceView::First(Code::NoDaemon, Some("dgram.close requires daemon mode"@)),
            no_memory: Code::Fixed(E_OTHER),
            memory_note: None,
            args: seq![
                an_plain(Form::Word, Code::Fixed(0)),
            ],
        },
        Import::DgramAddress => ShapeView {
            presence: PresenceView::Last(Code::NoDaemon, Some("dgram.address requires daemon mode"@)),
            no_memory: Code::Other,
            memory_note: None,
            args: seq![
                an_plain(Form::Word, Code::Fixed(0)),
                an_plain(Form::Out, Code::Fixed(0)),
            ],
        },
        Import::WasmCompile => ShapeView {
            presence: PresenceView::Needless,
            no_memory: Code::Fixed(FAILED),
            memory_note: None,
            args: seq![
                an_encoded(Code::Fixed(FAILED), None, BrokenView::Prefix("wasm.compile base64: "@)),
            ],
        },
        Import::WasmDropModule | Import::WasmInstantiate | Import::WasmDropInstance
        | Import::WasmMemorySize => ShapeView {
            presence: PresenceView::Needless,
            no_memory: Code::Fixed(E_OTHER),
            memory_note: None,
            args: seq![
                an_plain(Form::Long, Code::Fixed(0)),
            ],
        },
        Import::WasmModuleExports | Import::WasmModuleImports => ShapeView {
            presence: PresenceView::Needless,
            no_memory: Code::Fixed(E_OTHER),
            memory_note: None,
            args: seq![
                an_plain(Form::Long, Code::Fixed(0)),
                an_plain(Form::Out, Code::Fixed(0)),
            ],
        },
        Import::WasmMemoryRead => ShapeView {
            presence: PresenceView::Needless,
            no_memory: Code::Fixed(E_OTHER),
            memory_note: None,
            args: seq![
                an_plain(Form::Long, Code::Fixed(0)),
                an_plain(Form::Word, Code::Fixed(0)),
                an_plain(Form::Word, Code::Fixed(0)),
                an_plain(Form::Out, Code::Fixed(0)),
            ],
        },
        Import::WasmMemoryWrite => ShapeView {
            presence: PresenceView::Needless,
            no_memory: Code::Fixed(E_OTHER),
            memory_note: None,
            args: seq![
                an_plain(Form::Long, Code::Fixed(0)),
                an_plain(Form::Word, Code::Fixed(0)),
                an_encoded(Code::Fixed(E_OTHER), None, BrokenView::Prefix("wasm.memory.write base64: "@)),
            ],
        },
        Import::InspectorOpen => ShapeView {
            presence: PresenceView::Last(Code::Fixed(FAILED), Some("inspector requires daemon mode; run via `burn foo.js` CLI"@)),
            no_memory: Code::Fixed(E_OTHER),
            memory_note: None,
            args: seq![
                an_noted(Form::Port(0), Code::Fixed(ERR_BIND), "inspector.open: invalid port "@),
            ],
        },
        Import::InspectorClose => ShapeView {
            presence: PresenceView::First(Code::Fixed(ERR_NOT_OPEN), None),
            no_memory: Code::Fixed(E_OTHER),
            memory_note: None,
            args: Seq::empty(),
        },
        Import::InspectorSend => ShapeView {
            presence: PresenceView::Last(Code::Fixed(FAILED), None),
            no_memory: Code::Fixed(FAILED),
            memory_note: None,
            args: seq![
                an_plain(Form::Word, Code::Fixed(0)),
                an_plain(Form::Text, Code::Fixed(FAILED)),
            ],
        },
    }
}

/// How a function is called.
pub fn shape(i: Import) -> (r: Shape)
    ensures
        r@ == shape_of(i),
{
    match i {
        Import::FsExists | Import::FsUnlink | Import::StateDelete | Import::EmitRow => Shape {
            presence: Presence::Needless,
            no_memory: Code::Fixed(E_OTHER),
            memory_note: None,
            args: args1(
                plain(Form::Text, Code::Fixed(E_OTHER)),
            ),
        },
        Import::FsReadFile => Shape {
            presence: Presence::Needless,
            no_memory: Code::Fixed(E_OTHER),
            memory_note: Some("memory export missing"),
            args: args2(
                noted(Form::Text, Code::Fixed(E_OTHER), "invalid utf-8 in path"),
                plain(Form::Out, Code::Fixed(0)),
            ),
        },
        Import::FsWriteFile => Shape {
            presence: Presence::Needless,
            no_memory: Code::Fixed(E_OTHER),
            memory_note: None,
            args: args2(
                plain(Form::Text, Code::Fixed(E_OTHER)),
                encoded(Code::Fixed(E_OTHER), Some("invalid utf-8 in fs write data"), Broken::Prefix("fs.write base64: ")),
            ),
        },
        Import::FsStat | Import::FsReaddir | Import::FsRealpath | Import::FsReadlink
        | Import::FsOpendir | Import::FsSize | Import::V8Serialize | Import::V8Deserialize
        | Import::DnsLookup | Import::StateGet | Import::ReadColumn | Import::GetEnv => Shape {
            presence: Presence::Needless,
            no_memory: Code::Fixed(E_OTHER),
            memory_note: None,
            args: args2(
                plain(Form::Text, Code::Fixed(E_OTHER)),
                plain(Form::Out, Code::Fixed(0)),
            ),
        },
        Import::FsRename | Import::Http3ListenSetCert => Shape {
            presence: Presence::Needless,
            no_memory: Code::Fixed(E_OTHER),
            memory_note: None,
            args: args2(
                plain(Form::Text, Code::Fixed(E_OTHER)),
                plain(Form::Text, Code::Fixed(E_OTHER)),
            ),
        },
        Import::FsMkdir => Shape {
            presence: Presence::Needless,
            no_memory: Code::Fixed(E_OTHER),
            memory_note: None,
            args: args2(
                plain(Form::Text, Code::Fixed(E_OTHER)),
                plain(Form::Word, Code::Fixed(0)),
            ),
        },
        Import::FsCp => Shape {
            presence: Presence::Needless,
            no_memory: Code::Fixed(E_OTHER),
            memory_note: None,
            args: args3(
                plain(Form::Text, Code::Fixed(E_OTHER)),
                plain(Form::Text, Code::Fixed(E_OTHER)),
                plain(Form::Word, Code::Fixed(0)),
            ),
        },
        Import::FsWatchPoll => Shape {
            presence: Presence::Needless,
            no_memory: Code::Fixed(E_OTHER),
            memory_note: None,
            args: args3(
                plain(Form::Text, Code::Fixed(E_OTHER)),
                plain(Form::Interval, Code::Fixed(E_OTHER)),
                plain(Form::Out, Code::Fixed(0)),
            ),
        },
        Import::FsReadChunk => Shape {
            presence: Presence::Needless,
            no_memory: Code::Fixed(E_OTHER),
            memory_note: None,
            args: args5(
                plain(Form::Text, Code::Fixed(E_OTHER)),
                plain(Form::Word, Code::Fixed(0)),
                plain(Form::Word, Code::Fixed(0)),
                plain(Form::Word, Code::Fixed(0)),
                plain(Form::Out, Code::Fixed(0)),
            ),
        },
        Import::FsWriteChunk => Shape {
            presence: Presence::Needless,
            no_memory: Code::Fixed(E_OTHER),
            memory_note: None,
            args: args4(
                plain(Form::Text, Code::Fixed(E_OTHER)),
                plain(Form::Word, Code::Fixed(0)),
                plain(Form::Word, Code::Fixed(0)),
                plain(Form::Base64, Code::Fixed(E_OTHER)),
            ),
        },
        Import::CryptoHash => Shape {
            presence: Presence::Needless,
            no_memory: Code::Fixed(E_OTHER),
            memory_note: None,
            args: args3(
                plain(Form::Text, Code::Fixed(E_OTHER)),
                plain(Form::Bytes, Code::Fixed(E_OTHER)),
                plain(Form::Out, Code::Fixed(0)),
            ),
        },
        Import::CryptoRandomBytes => Shape {
            presence: Presence::Needless,
            no_memory: Code::Fixed(E_OTHER),
            memory_note: None,
            args: args2(
                plain(Form::Word, Code::Fixed(0)),
                plain(Form::Out, Code::Fixed(0)),
            ),
        },
        Import::CryptoSubtleOp | Import::DnsResolveSoa => Shape {
            presence: Presence::Needless,
            no_memory: Code::Fixed(E_OTHER),
            memory_note: None,
            args: args3(
                plain(Form::Text, Code::Fixed(E_OTHER)),
                plain(Form::Text, Code::Fixed(E_OTHER)),
                plain(Form::Out, Code::Fixed(0)),
            ),
        },
        Import::CryptoCheckPrime => Shape {
            presence: Presence::Needless,
            no_memory: Code::Fixed(E_OTHER),
            memory_note: None,
            args: args2(
                plain(Form::Hex, Code::Fixed(E_OTHER)),
                plain(Form::Word, Code::Fixed(0)),
            ),
        },
        Import::CryptoGeneratePrime => Shape {
            presence: Presence::Needless,
            no_memory: Code::Fixed(E_OTHER),
            memory_note: None,
            args: args3(
                plain(Form::Word, Code::Fixed(0)),
                plain(Form::Word, Code::Fixed(0)),
                plain(Form::Out, Code::Fixed(0)),
            ),
        },
        Import::CryptoAesGcmEncrypt | Import::CryptoAesGcmDecrypt => Shape {
            presence: Presence::Needless,
            no_memory: Code::Fixed(E_OTHER),
            memory_note: None,
            args: args6(
                plain(Form::Text, Code::Fixed(E_OTHER)),
                plain(Form::Base64, Code::Fixed(E_OTHER)),
                plain(Form::Base64, Code::Fixed(E_OTHER)),
                plain(Form::Base64, Code::Fixed(E_OTHER)),
                plain(Form::Base64, Code::Fixed(E_OTHER)),
                plain(Form::Out, Code::Fixed(0)),
            ),
        },
        Import::CryptoAesCbcEncrypt | Import::CryptoAesCbcDecrypt => Shape {
            presence: Presence::Needless,
            no_memory: Code::Fixed(E_OTHER),
            memory_note: None,
            args: args5(
                plain(Form::Text, Code::Fixed(E_OTHER)),
                plain(Form::Base64, Code::Fixed(E_OTHER)),
                plain(Form::Base64, Code::Fixed(E_OTHER)),
                plain(Form::Base64, Code::Fixed(E_OTHER)),
                plain(Form::Out, Code::Fixed(0)),
            ),
        },
        Import::CryptoPbkdf2 => Shape {
            presence: Presence::Needless,
            no_memory: Code::Fixed(E_OTHER),
            memory_note: None,
            args: args6(
                plain(Form::Text, Code::Fixed(E_OTHER)),
                plain(Form::Text, Code::Fixed(E_OTHER)),
                plain(Form::Base64, Code::Fixed(E_OTHER)),
                plain(Form::Word, Code::Fixed(0)),
                plain(Form::Word, Code::Fixed(0)),
                plain(Form::Out, Code::Fixed(0)),
            ),
        },
        Import::CryptoScrypt => Shape {
            presence: Presence::Needless,
            no_memory: Code::Fixed(E_OTHER),
            memory_note: None,
            args: args7(
                plain(Form::Text, Code::Fixed(E_OTHER)),
                plain(Form::Base64, Code::Fixed(E_OTHER)),
                plain(Form::Word, Code::Fixed(0)),
                plain(Form::Word, Code::Fixed(0)),
                plain(Form::Word, Code::Fixed(0)),
                plain(Form::Word, Code::Fixed(0)),
                plain(Form::Out, Code::Fixed(0)),
            ),
        },
        Import::CryptoSign => Shape {
            presence: Presence::Needless,
            no_memory: Code::Fixed(E_OTHER),
            memory_note: None,
            args: args4(
                plain(Form::Text, Code::Fixed(E_OTHER)),
                plain(Form::Text, Code::Fixed(E_OTHER)),
                plain(Form::Base64, Code::Fixed(E_OTHER)),
                plain(Form::Out, Code::Fixed(0)),
            ),
        },
        Import::CryptoVerify => Shape {
            presence: Presence::Needless,
            no_memory: Code::Fixed(E_OTHER),
            memory_note: None,
            args: args4(
                plain(Form::Text, Code::Fixed(E_OTHER)),
                plain(Form::Text, Code::Fixed(E_OTHER)),
                plain(Form::Base64, Code::Fixed(E_OTHER)),
                plain(Form::Base64, Code::Fixed(E_OTHER)),
            ),
        },
        Import::CryptoSignOpen | Import::CryptoHashOpen => Shape {
            presence: Presence::Needless,
            no_memory: Code::Fixed(0),
            memory_note: None,
            args: args1(
                plain(Form::Text, Code::Fixed(0)),
            ),
        },
        Import::CryptoSignUpdate | Import::CryptoHashUpdate => Shape {
            presence: Presence::Needless,
            no_memory: Code::Fixed(E_OTHER),
            memory_note: None,
            args: args2(
                plain(Form::Long, Code::Fixed(0)),
                plain(Form::Base64, Code::Fixed(E_OTHER)),
            ),
        },
        Import::CryptoSignFinalize | Import::WasmCallExport => Shape {
            presence: Presence::Needless,
            no_memory: Code::Fixed(E_OTHER),
            memory_note: None,
            args: args4(
                plain(Form::Long, Code::Fixed(0)),
                plain(Form::Text, Code::Fixed(E_OTHER)),
                plain(Form::Text, Code::Fixed(E_OTHER)),
                plain(Form::Out, Code::Fixed(0)),
            ),
        },
        Import::CryptoVerifyFinalize => Shape {
            presence: Presence::Needless,
            no_memory: Code::Fixed(E_OTHER),
            memory_note: None,
            args: args4(
                plain(Form::Long, Code::Fixed(0)),
                plain(Form::Text, Code::Fixed(E_OTHER)),
                plain(Form::Text, Code::Fixed(E_OTHER)),
                plain(Form::Base64, Code::Fixed(E_OTHER)),
            ),
        },
        Import::CryptoHmacOpen => Shape {
            presence: Presence::Needless,
            no_memory: Code::Fixed(0),
            memory_note: None,
            args: args2(
                plain(Form::Text, Code::Fixed(0)),
                encoded(Code::Fixed(0), None, Broken::Says("hmac key: invalid base64")),
            ),
        },
        Import::CryptoHashDigest => Shape {
            presence: Presence::Needless,
            no_memory: Code::Fixed(E_OTHER),
            memory_note: None,
            args: args3(
                plain(Form::Long, Code::Fixed(0)),
                plain(Form::Encoding, Code::Fixed(E_OTHER)),
                plain(Form::Out, Code::Fixed(0)),
            ),
        },
        Import::Http3Request => Shape {
            presence: Presence::Last(Code::Fixed(FAILED), None),
            no_memory: Code::Fixed(E_OTHER),
            memory_note: None,
            args: args4(
                plain(Form::Text, Code::Fixed(E_OTHER)),
                plain(Form::Text, Code::Fixed(E_OTHER)),
                plain(Form::Bytes, Code::Fixed(E_OTHER)),
                plain(Form::Out, Code::Fixed(0)),
            ),
        },
        Import::Http3Listen | Import::TimerSet => Shape {
            presence: Presence::First(Code::Fixed(FAILED), None),
            no_memory: Code::Fixed(E_OTHER),
            memory_note: None,
            args: args2(
                plain(Form::Word, Code::Fixed(0)),
                plain(Form::Word, Code::Fixed(0)),
            ),
        },
        Import::OsPlatform | Import::OsArch | Import::OsHomeDir | Import::OsTmpdir
        | Import::OsHostname | Import::LastError | Import::GetInput | Import::GetEnvelope => Shape {
            presence: Presence::Needless,
            no_memory: Code::Fixed(E_OTHER),
            memory_note: None,
            args: args1(
                plain(Form::Out, Code::Fixed(0)),
            ),
        },
        Import::HttpRequest => Shape {
            presence: Presence::Needless,
            no_memory: Code::Fixed(E_OTHER),
            memory_note: None,
            args: args4(
                plain(Form::Text, Code::Fixed(E_OTHER)),
                plain(Form::Text, Code::Fixed(E_OTHER)),
                plain(Form::BytesIfAny, Code::Fixed(E_OTHER)),
                plain(Form::Out, Code::Fixed(0)),
            ),
        },
        Import::HttpRequestAsync => Shape {
            presence: Presence::Last(Code::Fixed(FAILED), None),
            no_memory: Code::Fixed(FAILED),
            memory_note: None,
            args: args3(
                plain(Form::Text, Code::Fixed(FAILED)),
                plain(Form::Text, Code::Fixed(FAILED)),
                plain(Form::BytesIfAny, Code::Fixed(FAILED)),
            ),
        },
        Import::DnsResolve4 | Import::DnsResolve6 | Import::DnsResolveCname
        | Import::DnsResolveNs | Import::DnsReverse | Import::DnsResolveMx
        | Import::DnsResolveTxt | Import::ChildProcessExec => Shape {
            presence: Presence::Needless,
            no_memory: Code::Fixed(E_OTHER),
            memory_note: None,
            args: args3(
                plain(Form::Text, Code::Fixed(E_OTHER)),
                plain(Form::TextOrEmpty, Code::Fixed(0)),
                plain(Form::Out, Code::Fixed(0)),
            ),
        },
        Import::ZlibDeflate | Import::ZlibInflate | Import::ZlibGzip | Import::ZlibGunzip
        | Import::ZlibZstdCompress | Import::ZlibZstdDecompress => Shape {
            presence: Presence::Needless,
            no_memory: Code::Fixed(E_OTHER),
            memory_note: None,
            args: args2(
                encoded(Code::Fixed(E_OTHER), None, Broken::Prefix("base64 decode: ")),
                plain(Form::Out, Code::Fixed(0)),
            ),
        },
        Import::StateSet => Shape {
            presence: Presence::Needless,
            no_memory: Code::Fixed(E_OTHER),
            memory_note: None,
            args: args2(
                plain(Form::Text, Code::Fixed(E_OTHER)),
                plain(Form::Base64, Code::Fixed(E_OTHER)),
            ),
        },
        Import::StateIncrement => Shape {
            presence: Presence::Needless,
            no_memory: Code::Fixed(0),
            memory_note: None,
            args: args2(
                plain(Form::Text, Code::Fixed(0)),
                plain(Form::Long, Code::Fixed(0)),
            ),
        },
        Import::GetInputLen => Shape {
            presence: Presence::Needless,
            no_memory: Code::Fixed(E_OTHER),
            memory_note: None,
            args: no_args(),
        },
        Import::ColumnarReply => Shape {
            presence: Presence::Needless,
            no_memory: Code::Fixed(E_OTHER),
            memory_note: None,
            args: args2(
                plain(Form::Word, Code::Fixed(0)),
                plain(Form::Word, Code::Fixed(0)),
            ),
        },
        Import::HttpListen => Shape {
            presence: Presence::First(Code::Fixed(FAILED), Some("http.createServer requires daemon mode; run via `burn foo.js` CLI")),
            no_memory: Code::Fixed(E_OTHER),
            memory_note: None,
            args: args1(
                noted(Form::Port(1), Code::Fixed(E_OTHER), "http.listen: invalid port "),
            ),
        },
        Import::HttpReply => Shape {
            presence: Presence::First(Code::Fixed(E_OTHER), None),
            no_memory: Code::Fixed(E_OTHER),
            memory_note: None,
            args: args2(
                plain(Form::Long, Code::Fixed(0)),
                plain(Form::Bytes, Code::Fixed(E_OTHER)),
            ),
        },
        Import::HttpClose | Import::WorkerPid | Import::NetPending | Import::TlsPending => Shape {
            presence: Presence::First(Code::Fixed(0), None),
            no_memory: Code::Fixed(E_OTHER),
            memory_note: None,
            args: args1(
                plain(Form::Word, Code::Fixed(0)),
            ),
        },
        Import::BcryptHash => Shape {
            presence: Presence::Last(Code::Fixed(FAILED), Some("shadow-bcrypt feature not enabled")),
            no_memory: Code::Fixed(E_OTHER),
            memory_note: None,
            args: args3(
                plain(Form::Text, Code::Fixed(E_OTHER)),
                plain(Form::Word, Code::Fixed(0)),
                plain(Form::Out, Code::Fixed(0)),
            ),
        },
        Import::BcryptVerify => Shape {
            presence: Presence::Last(Code::Fixed(FAILED), Some("shadow-bcrypt feature not enabled")),
            no_memory: Code::Fixed(E_OTHER),
            memory_note: None,
            args: args2(
                plain(Form::Text, Code::Fixed(E_OTHER)),
                plain(Form::Text, Code::Fixed(E_OTHER)),
            ),
        },
        Import::BcryptGenSalt => Shape {
            presence: Presence::First(Code::Fixed(FAILED), Some("shadow-bcrypt feature not enabled")),
            no_memory: Code::Fixed(E_OTHER),
            memory_note: None,
            args: args2(
                plain(Form::Word, Code::Fixed(0)),
                plain(Form::Out, Code::Fixed(0)),
            ),
        },
        Import::Argon2Hash => Shape {
            presence: Presence::Last(Code::Fixed(FAILED), Some("shadow-argon2 feature not enabled")),
            no_memory: Code::Fixed(E_OTHER),
            memory_note: None,
            args: args6(
                plain(Form::Text, Code::Fixed(E_OTHER)),
                plain(Form::Word, Code::Fixed(0)),
                plain(Form::Word, Code::Fixed(0)),
                plain(Form::Word, Code::Fixed(0)),
                plain(Form::Word, Code::Fixed(0)),
                plain(Form::Out, Code::Fixed(0)),
            ),
        },
        Import::Argon2Verify => Shape {
            presence: Presence::Last(Code::Fixed(FAILED), Some("shadow-argon2 feature not enabled")),
            no_memory: Code::Fixed(E_OTHER),
            memory_note: None,
            args: args2(
                plain(Form::Text, Code::Fixed(E_OTHER)),
                plain(Form::Text, Code::Fixed(E_OTHER)),
            ),
        },
        Import::Argon2NeedsRehash => Shape {
            presence: Presence::Last(Code::Fixed(FAILED), Some("shadow-argon2 feature not enabled")),
            no_memory: Code::Fixed(E_OTHER),
            memory_note: None,
            args: args5(
                plain(Form::Text, Code::Fixed(E_OTHER)),
                plain(Form::Word, Code::Fixed(0)),
                plain(Form::Word, Code::Fixed(0)),
                plain(Form::Word, Code::Fixed(0)),
                plain(Form::Word, Code::Fixed(0)),
            ),
        },
        Import::JwtSign | Import::JwtVerify => Shape {
            presence: Presence::Last(Code::Fixed(FAILED), Some("shadow-jsonwebtoken feature not enabled")),
            no_memory: Code::Fixed(E_OTHER),
            memory_note: None,
            args: args4(
                plain(Form::Text, Code::Fixed(E_OTHER)),
                plain(Form::Bytes, Code::Fixed(E_OTHER)),
                plain(Form::Text, Code::Fixed(E_OTHER)),
                plain(Form::Out, Code::Fixed(0)),
            ),
        },
        Import::JwtDecode => Shape {
            presence: Presence::Last(Code::Fixed(FAILED), Some("shadow-jsonwebtoken feature not enabled")),
            no_memory: Code::Fixed(E_OTHER),
            memory_note: None,
            args: args2(
                plain(Form::Text, Code::Fixed(E_OTHER)),
                plain(Form::Out, Code::Fixed(0)),
            ),
        },
        Import::SqliteOpen => Shape {
            presence: Presence::Last(Code::Fixed(FAILED), Some("shadow-sqlite3 feature not enabled")),
            no_memory: Code::Fixed(FAILED),
            memory_note: None,
            args: args1(
                plain(Form::Text, Code::Fixed(FAILED)),
            ),
        },
        Import::SqliteRun | Import::SqliteGet | Import::SqliteAll => Shape {
            presence: Presence::Last(Code::Fixed(E_OTHER), Some("shadow-sqlite3 feature not enabled")),
            no_memory: Code::Fixed(E_OTHER),
            memory_note: None,
            args: args4(
                plain(Form::Long, Code::Fixed(0)),
                plain(Form::Text, Code::Fixed(E_OTHER)),
                plain(Form::Text, Code::Fixed(E_OTHER)),
                plain(Form::Out, Code::Fixed(0)),
            ),
        },
        Import::SqliteExec => Shape {
            presence: Presence::Last(Code::Fixed(E_OTHER), Some("shadow-sqlite3 feature not enabled")),
            no_memory: Code::Fixed(E_OTHER),
            memory_note: None,
            args: args2(
                plain(Form::Long, Code::Fixed(0)),
                plain(Form::Text, Code::Fixed(E_OTHER)),
            ),
        },
        Import::SqliteClose => Shape {
            presence: Presence::First(Code::Fixed(E_OTHER), Some("shadow-sqlite3 feature not enabled")),
            no_memory: Code::Fixed(E_OTHER),
            memory_note: None,
            args: args1(
                plain(Form::Long, Code::Fixed(0)),
            ),
        },
        Import::SharpRun | Import::SharpMetadata | Import::SharpStats => Shape {
            presence: Presence::Last(Code::Fixed(E_OTHER), Some("shadow-sharp feature not enabled")),
            no_memory: Code::Fixed(E_OTHER),
            memory_note: None,
            args: args2(
                plain(Form::Text, Code::Fixed(E_OTHER)),
                plain(Form::Out, Code::Fixed(0)),
            ),
        },
        Import::TsTranspile => Shape {
            presence: Presence::Last(Code::Fixed(FAILED), None),
            no_memory: Code::Fixed(E_OTHER),
            memory_note: None,
            args: args3(
                plain(Form::Text, Code::Fixed(E_OTHER)),
                plain(Form::Text, Code::Fixed(E_OTHER)),
                plain(Form::Out, Code::Fixed(0)),
            ),
        },
        Import::ProcessExit | Import::TimerClear | Import::TimerUnref | Import::TimerRef => Shape {
            presence: Presence::Needless,
            no_memory: Code::Fixed(E_OTHER),
            memory_note: None,
            args: args1(
                plain(Form::Word, Code::Fixed(0)),
            ),
        },
        Import::WorkerSpawn => Shape {
            presence: Presence::Last(Code::NoDaemon, Some("worker_threads requires daemon mode; run via `burn foo.js`")),
            no_memory: Code::Other,
            memory_note: None,
            args: args2(
                noted(Form::Text, Code::Other, "worker_spawn: invalid path"),
                noted(Form::Text, Code::Other, "worker_spawn: invalid worker_data"),
            ),
        },
        Import::WorkerSpawnEnv => Shape {
            presence: Presence::Last(Code::NoDaemon, Some("worker_threads requires daemon mode; run via `burn foo.js`")),
            no_memory: Code::Other,
            memory_note: None,
            args: args3(
                noted(Form::Text, Code::Other, "worker_spawn_env: invalid path"),
                noted(Form::Text, Code::Other, "worker_spawn_env: invalid worker_data"),
                plain(Form::TextOrEmpty, Code::Fixed(0)),
            ),
        },
        Import::WorkerPostMessage => Shape {
            presence: Presence::Last(Code::NoDaemon, None),
            no_memory: Code::Other,
            memory_note: None,
            args: args2(
                plain(Form::Word, Code::Fixed(0)),
                noted(Form::Text, Code::Other, "worker_post: invalid payload"),
            ),
        },
        Import::WorkerTerminate | Import::NetSetNoDelay => Shape {
            presence: Presence::First(Code::NoDaemon, None),
            no_memory: Code::Fixed(E_OTHER),
            memory_note: None,
            args: args2(
                plain(Form::Word, Code::Fixed(0)),
                plain(Form::Word, Code::Fixed(0)),
            ),
        },
        Import::WorkerPostToParent => Shape {
            presence: Presence::Last(Code::NoDaemon, None),
            no_memory: Code::Other,
            memory_note: None,
            args: args1(
                noted(Form::Text, Code::Other, "worker_post_parent: invalid payload"),
            ),
        },
        Import::WorkerPostOnline => Shape {
            presence: Presence::First(Code::NoDaemon, None),
            no_memory: Code::Fixed(E_OTHER),
            memory_note: None,
            args: no_args(),
        },
        Import::WorkerPostError => Shape {
            presence: Presence::Last(Code::NoDaemon, None),
            no_memory: Code::Other,
            memory_note: None,
            args: args2(
                plain(Form::Text, Code::Other),
                plain(Form::Text, Code::Other),
            ),
        },
        Import::WorkerThreadId => Shape {
            presence: Presence::First(Code::Fixed(0), None),
            no_memory: Code::Fixed(E_OTHER),
            memory_note: None,
            args: no_args(),
        },
        Import::WorkerIsMainThread => Shape {
            presence: Presence::First(Code::Fixed(1), None),
            no_memory: Code::Fixed(E_OTHER),
            memory_note: None,
            args: no_args(),
        },
        Import::WorkerData => Shape {
            presence: Presence::Needless,
            no_memory: Code::Other,
            memory_note: None,
            args: args1(
                plain(Form::Out, Code::Fixed(0)),
            ),
        },
        Import::NetConnect => Shape {
            presence: Presence::Last(Code::NoDaemon, Some("net.connect requires daemon mode")),
            no_memory: Code::Other,
            memory_note: None,
            args: args2(
                noted(Form::Text, Code::Other, "net_connect: invalid host"),
                noted(Form::Port(1), Code::BadPort, "net_connect: invalid port "),
            ),
        },
        Import::NetWrite => Shape {
            presence: Presence::Last(Code::NoDaemon, None),
            no_memory: Code::Other,
            memory_note: None,
            args: args2(
                plain(Form::Word, Code::Fixed(0)),
                noted(Form::Text, Code::BadPayload, "net_write: invalid payload"),
            ),
        },
        Import::NetEnd | Import::NetDestroy | Import::NetCloseServer | Import::TlsEnd
        | Import::TlsDestroy | Import::TlsCloseServer => Shape {
            presence: Presence::First(Code::NoDaemon, None),
            no_memory: Code::Fixed(E_OTHER),
            memory_note: None,
            args: args1(
                plain(Form::Word, Code::Fixed(0)),
            ),
        },
        Import::NetSetKeepAlive => Shape {
            presence: Presence::First(Code::NoDaemon, None),
            no_memory: Code::Fixed(E_OTHER),
            memory_note: None,
            args: args3(
                plain(Form::Word, Code::Fixed(0)),
                plain(Form::Word, Code::Fixed(0)),
                plain(Form::Word, Code::Fixed(0)),
            ),
        },
        Import::NetListen => Shape {
            presence: Presence::Last(Code::NoDaemon, Some("net.createServer requires daemon mode")),
            no_memory: Code::Other,
            memory_note: None,
            args: args2(
                noted(Form::Text, Code::Other, "net_listen: invalid host"),
                noted(Form::Port(0), Code::BadPort, "net_listen: invalid port "),
            ),
        },
        Import::TlsConnect => Shape {
            presence: Presence::Last(Code::NoDaemon, Some("tls.connect requires daemon mode")),
            no_memory: Code::Other,
            memory_note: None,
            args: args3(
                noted(Form::Text, Code::Other, "tls_connect: invalid host"),
                noted(Form::Port(1), Code::BadPort, "tls_connect: invalid port "),
                plain(Form::TextOrEmpty, Code::Fixed(0)),
            ),
        },
        Import::TlsWrite => Shape {
            presence: Presence::Last(Code::NoDaemon, None),
            no_memory: Code::Other,
            memory_note: None,
            args: args2(
                plain(Form::Word, Code::Fixed(0)),
                noted(Form::Text, Code::BadPayload, "tls_write: invalid payload"),
            ),
        },
        Import::TlsListen => Shape {
            presence: Presence::Last(Code::NoDaemon, Some("tls.createServer requires daemon mode")),
            no_memory: Code::Other,
            memory_note: None,
            args: args5(
                noted(Form::Text, Code::Other, "tls_listen: invalid host"),
                noted(Form::Port(0), Code::BadPort, "tls_listen: invalid port "),
                noted(Form::Text, Code::BadCert, "tls_listen: invalid cert PEM"),
                noted(Form::Text, Code::BadCert, "tls_listen: invalid key PEM"),
                plain(Form::TextOrEmpty, Code::Fixed(0)),
            ),
        },
        Import::DgramBind => Shape {
            presence: Presence::Last(Code::NoDaemon, Some("dgram.bind requires daemon mode")),
            no_memory: Code::Other,
            memory_note: None,
            args: args2(
                noted(Form::Text, Code::BadHost, "dgram.bind: invalid host"),
                noted(Form::Port(0), Code::BadPort, "dgram.bind: invalid port "),
            ),
        },
        Import::DgramSend => Shape {
            presence: Presence::Last(Code::NoDaemon, Some("dgram.send requires daemon mode")),
            no_memory: Code::Other,
            memory_note: None,
            args: args4(
                plain(Form::Word, Code::Fixed(0)),
                noted(Form::Text, Code::BadHost, "dgram.send: invalid host"),
                noted(Form::Port(0), Code::BadPort, "dgram.send: invalid port "),
                encoded(Code::BadPayload, Some("dgram.send: invalid payload"), Broken::Prefix("net: payload base64: ")),
            ),
        },
        Import::DgramClose => Shape {
            presence: Presence::First(Code::NoDaemon, Some("dgram.close requires daemon mode")),
            no_memory: Code::Fixed(E_OTHER),
            memory_note: None,
            args: args1(
                plain(Form::Word, Code::Fixed(0)),
            ),
        },
        Import::DgramAddress => Shape {
            presence: Presence::Last(Code::NoDaemon, Some("dgram.address requires daemon mode")),
            no_memory: Code::Other,
            memory_note: None,
            args: args2(
                plain(Form::Word, Code::Fixed(0)),
                plain(Form::Out, Code::Fixed(0)),
            ),
        },
        Import::WasmCompile => Shape {
            presence: Presence::Needless,
            no_memory: Code::Fixed(FAILED),
            memory_note: None,
            args: args1(
                encoded(Code::Fixed(FAILED), None, Broken::Prefix("wasm.compile base64: ")),
            ),
        },
        Import::WasmDropModule | Import::WasmInstantiate | Import::WasmDropInstance
        | Import::WasmMemorySize => Shape {
            presence: Presence::Needless,
            no_memory: Code::Fixed(E_OTHER),
            memory_note: None,
            args: args1(
                plain(Form::Long, Code::Fixed(0)),
            ),
        },
        Import::WasmModuleExports | Import::WasmModuleImports => Shape {
            presence: Presence::Needless,
            no_memory: Code::Fixed(E_OTHER),
            memory_note: None,
            args: args2(
                plain(Form::Long, Code::Fixed(0)),
                plain(Form::Out, Code::Fixed(0)),
            ),
        },
        Import::WasmMemoryRead => Shape {
            presence: Presence::Needless,
            no_memory: Code::Fixed(E_OTHER),
            memory_note: None,
            args: args4(
                plain(Form::Long, Code::Fixed(0)),
                plain(Form::Word, Code::Fixed(0)),
                plain(Form::Word, Code::Fixed(0)),
                plain(Form::Out, Code::Fixed(0)),
            ),
        },
        Import::WasmMemoryWrite => Shape {
            presence: Presence::Needless,
            no_memory: Code::Fixed(E_OTHER),
            memory_note: None,
            args: args3(
                plain(Form::Long, Code::Fixed(0)),
                plain(Form::Word, Code::Fixed(0)),
                encoded(Code::Fixed(E_OTHER), None, Broken::Prefix("wasm.memory.write base64: ")),
            ),
        },
        Import::InspectorOpen => Shape {
            presence: Presence::Last(Code::Fixed(FAILED), Some("inspector requires daemon mode; run via `burn foo.js` CLI")),
            no_memory: Code::Fixed(E_OTHER),
            memory_note: None,
            args: args1(
                noted(Form::Port(0), Code::Fixed(ERR_BIND), "inspector.open: invalid port "),
            ),
        },
        Import::InspectorClose => Shape {
            presence: Presence::First(Code::Fixed(ERR_NOT_OPEN), None),
            no_memory: Code::Fixed(E_OTHER),
            memory_note: None,
            args: no_args(),
        },
        Import::InspectorSend => Shape {
            presence: Presence::Last(Code::Fixed(FAILED), None),
            no_memory: Code::Fixed(FAILED),
            memory_note: None,
            args: args2(
                plain(Form::Word, Code::Fixed(0)),
                plain(Form::Text, Code::Fixed(FAILED)),
            ),
        },
    }
}

/// How bytes go back to the guest.
#[derive(Debug, Clone, Copy, PartialEq, Eq, Structural)]
pub enum Encoding {
    Base64,
    Hex,
    Raw,
}

/// How the bytes that a function gives go back to the guest.
pub open spec fn encoding_of(i: Import) -> Encoding {
    match i {
        Import::FsReadFile | Import::FsReadChunk | Import::CryptoAesGcmEncrypt
        | Import::CryptoAesGcmDecrypt | Import::CryptoAesCbcEncrypt
        | Import::CryptoAesCbcDecrypt | Import::CryptoPbkdf2 | Import::CryptoScrypt
        | Import::CryptoSign | Import::CryptoSignFinalize | Import::ZlibDeflate
        | Import::ZlibInflate | Import::ZlibGzip | Import::ZlibGunzip | Import::ZlibZstdCompress
        | Import::ZlibZstdDecompress | Import::StateGet | Import::SharpRun
        | Import::WasmMemoryRead => Encoding::Base64,
        Import::CryptoHash | Import::CryptoRandomBytes | Import::CryptoGeneratePrime => Encoding::Hex,
        _ => Encoding::Raw,
    }
}

/// What is answered where the service of a function fails.
pub enum Failure {
    /// A code that depends on the error.
    Mapped,
    /// This code.
    Plain(i32),
    /// This code, and this said in front of what went wrong.
    Prefixed(&'static str, i32),
}

/// [`Failure`] over sequences.
pub enum FailureView {
    Mapped,
    Plain(i32),
    Prefixed(Seq<char>, i32),
}

impl View for Failure {
    type V = FailureView;

    open spec fn view(&self) -> FailureView {
        match self {
            Failure::Mapped => FailureView::Mapped,
            Failure::Plain(c) => FailureView::Plain(*c),
            Failure::Prefixed(s, c) => FailureView::Prefixed(s@, *c),
        }
    }
}

/// What is answered where the service of a function fails.
pub open spec fn failure_of(i: Import) -> FailureView {
    match i {
        Import::CryptoSignOpen | Import::CryptoHashOpen | Import::CryptoHmacOpen => FailureView::Plain(0),
        Import::EmitRow => FailureView::Prefixed("emit_row: "@, E_OTHER),
        Import::HttpReply => FailureView::Prefixed("http_reply json: "@, E_OTHER),
        Import::BcryptHash | Import::BcryptVerify | Import::BcryptGenSalt | Import::Argon2Hash
        | Import::Argon2Verify | Import::Argon2NeedsRehash | Import::JwtSign | Import::JwtVerify
        | Import::JwtDecode | Import::SqliteOpen | Import::WasmCompile | Import::WasmInstantiate
        | Import::WasmMemorySize => FailureView::Plain(FAILED),
        Import::SqliteRun | Import::SqliteGet | Import::SqliteAll | Import::SqliteExec
        | Import::SqliteClose | Import::SharpRun | Import::SharpMetadata | Import::SharpStats
        | Import::WasmModuleExports | Import::WasmModuleImports | Import::WasmCallExport
        | Import::WasmMemoryRead | Import::WasmMemoryWrite => FailureView::Plain(E_OTHER),
        Import::TsTranspile => FailureView::Prefixed("ts_transpile: "@, E_OTHER),
        _ => FailureView::Mapped,
    }
}

impl Import {
    /// How the bytes that the function gives go back to the guest.
    pub fn encoding(self) -> (r: Encoding)
        ensures
            r == encoding_of(self),
    {
        match self {
            Import::FsReadFile | Import::FsReadChunk | Import::CryptoAesGcmEncrypt
            | Import::CryptoAesGcmDecrypt | Import::CryptoAesCbcEncrypt
            | Import::CryptoAesCbcDecrypt | Import::CryptoPbkdf2 | Import::CryptoScrypt
            | Import::CryptoSign | Import::CryptoSignFinalize | Import::ZlibDeflate
            | Import::ZlibInflate | Import::ZlibGzip | Import::ZlibGunzip | Import::ZlibZstdCompress
            | Import::ZlibZstdDecompress | Import::StateGet | Import::SharpRun
            | Import::WasmMemoryRead => Encoding::Base64,
            Import::CryptoHash | Import::CryptoRandomBytes | Import::CryptoGeneratePrime => Encoding::Hex,
            _ => Encoding::Raw,
        }
    }

    /// What is answered where the service of the function fails.
    pub fn failure(self) -> (r: Failure)
        ensures
            r@ == failure_of(self),
    {
        match self {
            Import::CryptoSignOpen | Import::CryptoHashOpen | Import::CryptoHmacOpen => Failure::Plain(0),
            Import::EmitRow => Failure::Prefixed("emit_row: ", E_OTHER),
            Import::HttpReply => Failure::Prefixed("http_reply json: ", E_OTHER),
            Import::BcryptHash | Import::BcryptVerify | Import::BcryptGenSalt | Import::Argon2Hash
            | Import::Argon2Verify | Import::Argon2NeedsRehash | Import::JwtSign | Import::JwtVerify
            | Import::JwtDecode | Import::SqliteOpen | Import::WasmCompile | Import::WasmInstantiate
            | Import::WasmMemorySize => Failure::Plain(FAILED),
            Import::SqliteRun | Import::SqliteGet | Import::SqliteAll | Import::SqliteExec
            | Import::SqliteClose | Import::SharpRun | Import::SharpMetadata | Import::SharpStats
            | Import::WasmModuleExports | Import::WasmModuleImports | Import::WasmCallExport
            | Import::WasmMemoryRead | Import::WasmMemoryWrite => Failure::Plain(E_OTHER),
            Import::TsTranspile => Failure::Prefixed("ts_transpile: ", E_OTHER),
            _ => Failure::Mapped,
        }
    }
}

/// What a guest is told of a function that needs its script to be allowed cryptography, where it is
/// not.
pub open spec fn crypto_denial(i: Import) -> Option<Seq<char>> {
    match i {
        Import::CryptoHashOpen => Some("crypto.createHash: permission denied"@),
        Import::CryptoHmacOpen => Some("crypto.createHmac: permission denied"@),
        _ => None,
    }
}

/// Asks whether cryptography is allowed, where the function needs it: the answer where it is not.
pub fn crypto_gate(i: Import, allowed: bool, last_error: &mut String) -> (r: Option<i64>)
    ensures
        r == (if !allowed && crypto_denial(i) is Some {
            Some(0i64)
        } else {
            None
        }),
        final(last_error)@ == (if !allowed && crypto_denial(i) is Some {
            crypto_denial(i)->0
        } else {
            old(last_error)@
        }),
{
    if allowed {
        return None;
    }
    match i {
        Import::CryptoHashOpen => {
            *last_error = "crypto.createHash: permission denied".to_owned();
            Some(0)
        },
        Import::CryptoHmacOpen => {
            *last_error = "crypto.createHmac: permission denied".to_owned();
            Some(0)
        },
        _ => None,
    }
}

} // verus!
