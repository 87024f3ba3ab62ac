//! What the functions that a guest imports promise to it.
//!
//! A guest is built against these functions: their names, the parameters that they take, and the
//! numbers that they answer with are fixed.
use vstd::prelude::*;

use crate::host_imports::{
    crypto_denial, encoding_of, failure_of, name_of, returned_by, shape_of, Code, Encoding,
    FailureView, Form, Import, PresenceView, Returned,
};

verus! {

/// The forms of the things that the parameters of a function stand for.
pub open spec fn forms(i: Import) -> Seq<Form> {
    Seq::new(shape_of(i).args.len(), |k: int| shape_of(i).args[k].form)
}

/// The codes with which a function refuses what it cannot read.
pub open spec fn codes(i: Import) -> Seq<Code> {
    Seq::new(shape_of(i).args.len(), |k: int| shape_of(i).args[k].code)
}

/// Every function takes the things that its parameters stand for, in this order.
#[verifier::spinoff_prover]
#[verifier::rlimit(60)]
pub proof fn functions_take_their_arguments(i: Import)
    ensures
        i == Import::FsExists || i == Import::FsUnlink || i == Import::CryptoSignOpen
            || i == Import::CryptoHashOpen || i == Import::StateDelete || i == Import::EmitRow
            || i == Import::SqliteOpen || i == Import::WorkerPostToParent
            ==> forms(i) == seq![Form::Text],
        i == Import::FsReadFile || i == Import::FsStat || i == Import::FsReaddir
            || i == Import::FsRealpath || i == Import::FsReadlink || i == Import::FsOpendir
            || i == Import::FsSize || i == Import::V8Serialize || i == Import::V8Deserialize
            || i == Import::DnsLookup || i == Import::StateGet || i == Import::ReadColumn
            || i == Import::GetEnv || i == Import::JwtDecode || i == Import::SharpRun
            || i == Import::SharpMetadata || i == Import::SharpStats
            ==> forms(i) == seq![Form::Text, Form::Out],
        i == Import::FsWriteFile || i == Import::CryptoHmacOpen || i == Import::StateSet
            ==> forms(i) == seq![Form::Text, Form::Base64],
        i == Import::FsRename || i == Import::Http3ListenSetCert || i == Import::BcryptVerify
            || i == Import::Argon2Verify || i == Import::WorkerSpawn || i == Import::WorkerPostError
            ==> forms(i) == seq![Form::Text, Form::Text],
        i == Import::FsMkdir
            ==> forms(i) == seq![Form::Text, Form::Word],
        i == Import::FsCp
            ==> forms(i) == seq![Form::Text, Form::Text, Form::Word],
        i == Import::FsWatchPoll
            ==> forms(i) == seq![Form::Text, Form::Interval, Form::Out],
        i == Import::FsReadChunk
            ==> forms(i) == seq![Form::Text, Form::Word, Form::Word, Form::Word, Form::Out],
        i == Import::FsWriteChunk
            ==> forms(i) == seq![Form::Text, Form::Word, Form::Word, Form::Base64],
        i == Import::CryptoHash
            ==> forms(i) == seq![Form::Text, Form::Bytes, Form::Out],
        i == Import::CryptoRandomBytes || i == Import::BcryptGenSalt
            || i == Import::DgramAddress
            ==> forms(i) == seq![Form::Word, Form::Out],
        i == Import::CryptoSubtleOp || i == Import::DnsResolveSoa || i == Import::TsTranspile
            ==> forms(i) == seq![Form::Text, Form::Text, Form::Out],
        i == Import::CryptoCheckPrime
            ==> forms(i) == seq![Form::Hex, Form::Word],
        i == Import::CryptoGeneratePrime
            ==> forms(i) == seq![Form::Word, Form::Word, Form::Out],
        i == Import::CryptoAesGcmEncrypt || i == Import::CryptoAesGcmDecrypt
            ==> forms(i) == seq![Form::Text, Form::Base64, Form::Base64, Form::Base64, Form::Base64, Form::Out],
        i == Import::CryptoAesCbcEncrypt || i == Import::CryptoAesCbcDecrypt
            ==> forms(i) == seq![Form::Text, Form::Base64, Form::Base64, Form::Base64, Form::Out],
        i == Import::CryptoPbkdf2
            ==> forms(i) == seq![Form::Text, Form::Text, Form::Base64, Form::Word, Form::Word, Form::Out],
        i == Import::CryptoScrypt
            ==> forms(i) == seq![Form::Text, Form::Base64, Form::Word, Form::Word, Form::Word, Form::Word, Form::Out],
        i == Import::CryptoSign
            ==> forms(i) == seq![Form::Text, Form::Text, Form::Base64, Form::Out],
        i == Import::CryptoVerify
            ==> forms(i) == seq![Form::Text, Form::Text, Form::Base64, Form::Base64],
        i == Import::CryptoSignUpdate || i == Import::CryptoHashUpdate
            ==> forms(i) == seq![Form::Long, Form::Base64],
        i == Import::CryptoSignFinalize || i == Import::SqliteRun || i == Import::SqliteGet
            || i == Import::SqliteAll || i == Import::WasmCallExport
            ==> forms(i) == seq![Form::Long, Form::Text, Form::Text, Form::Out],
        i == Import::CryptoVerifyFinalize
            ==> forms(i) == seq![Form::Long, Form::Text, Form::Text, Form::Base64],
        i == Import::CryptoHashDigest
            ==> forms(i) == seq![Form::Long, Form::Encoding, Form::Out],
        i == Import::Http3Request
            ==> forms(i) == seq![Form::Text, Form::Text, Form::Bytes, Form::Out],
        i == Import::Http3Listen || i == Import::ColumnarReply || i == Import::TimerSet
            || i == Import::WorkerTerminate || i == Import::NetSetNoDelay
            ==> forms(i) == seq![Form::Word, Form::Word],
        i == Import::OsPlatform || i == Import::OsArch || i == Import::OsHomeDir
            || i == Import::OsTmpdir || i == Import::OsHostname || i == Import::LastError
            || i == Import::GetInput || i == Import::GetEnvelope || i == Import::WorkerData
            ==> forms(i) == seq![Form::Out],
        i == Import::HttpRequest
            ==> forms(i) == seq![Form::Text, Form::Text, Form::BytesIfAny, Form::Out],
        i == Import::HttpRequestAsync
            ==> forms(i) == seq![Form::Text, Form::Text, Form::BytesIfAny],
        i == Import::DnsResolve4 || i == Import::DnsResolve6 || i == Import::DnsResolveCname
            || i == Import::DnsResolveNs || i == Import::DnsReverse || i == Import::DnsResolveMx
            || i == Import::DnsResolveTxt || i == Import::ChildProcessExec
            ==> forms(i) == seq![Form::Text, Form::TextOrEmpty, Form::Out],
        i == Import::ZlibDeflate || i == Import::ZlibInflate || i == Import::ZlibGzip
            || i == Import::ZlibGunzip || i == Import::ZlibZstdCompress
            || i == Import::ZlibZstdDecompress
            ==> forms(i) == seq![Form::Base64, Form::Out],
        i == Import::StateIncrement
            ==> forms(i) == seq![Form::Text, Form::Long],
        i == Import::GetInputLen || i == Import::WorkerPostOnline || i == Import::WorkerThreadId
            || i == Import::WorkerIsMainThread || i == Import::InspectorClose
            ==> forms(i) == Seq::<Form>::empty(),
        i == Import::HttpListen
            ==> forms(i) == seq![Form::Port(1)],
        i == Import::HttpReply
            ==> forms(i) == seq![Form::Long, Form::Bytes],
        i == Import::HttpClose || i == Import::ProcessExit || i == Import::TimerClear
            || i == Import::TimerUnref || i == Import::TimerRef || i == Import::WorkerPid
            || i == Import::NetEnd || i == Import::NetDestroy || i == Import::NetPending
            || i == Import::NetCloseServer || i == Import::TlsEnd || i == Import::TlsDestroy
            || i == Import::TlsPending || i == Import::TlsCloseServer || i == Import::DgramClose
            ==> forms(i) == seq![Form::Word],
        i == Import::BcryptHash
            ==> forms(i) == seq![Form::Text, Form::Word, Form::Out],
        i == Import::Argon2Hash
            ==> forms(i) == seq![Form::Text, Form::Word, Form::Word, Form::Word, Form::Word, Form::Out],
        i == Import::Argon2NeedsRehash
            ==> forms(i) == seq![Form::Text, Form::Word, Form::Word, Form::Word, Form::Word],
        i == Import::JwtSign || i == Import::JwtVerify
            ==> forms(i) == seq![Form::Text, Form::Bytes, Form::Text, Form::Out],
        i == Import::SqliteExec
            ==> forms(i) == seq![Form::Long, Form::Text],
        i == Import::SqliteClose || i == Import::WasmDropModule || i == Import::WasmInstantiate
            || i == Import::WasmDropInstance || i == Import::WasmMemorySize
            ==> forms(i) == seq![Form::Long],
        i == Import::WorkerSpawnEnv
            ==> forms(i) == seq![Form::Text, Form::Text, Form::TextOrEmpty],
        i == Import::WorkerPostMessage || i == Import::NetWrite || i == Import::TlsWrite
            || i == Import::InspectorSend
            ==> forms(i) == seq![Form::Word, Form::Text],
        i == Import::NetConnect
            ==> forms(i) == seq![Form::Text, Form::Port(1)],
        i == Import::NetSetKeepAlive
            ==> forms(i) == seq![Form::Word, Form::Word, Form::Word],
        i == Import::NetListen || i == Import::DgramBind
            ==> forms(i) == seq![Form::Text, Form::Port(0)],
        i == Import::TlsConnect
            ==> forms(i) == seq![Form::Text, Form::Port(1), Form::TextOrEmpty],
        i == Import::TlsListen
            ==> forms(i) == seq![Form::Text, Form::Port(0), Form::Text, Form::Text, Form::TextOrEmpty],
        i == Import::DgramSend
            ==> forms(i) == seq![Form::Word, Form::Text, Form::Port(0), Form::Base64],
        i == Import::WasmCompile
            ==> forms(i) == seq![Form::Base64],
        i == Import::WasmModuleExports || i == Import::WasmModuleImports
            ==> forms(i) == seq![Form::Long, Form::Out],
        i == Import::WasmMemoryRead
            ==> forms(i) == seq![Form::Long, Form::Word, Form::Word, Form::Out],
        i == Import::WasmMemoryWrite
            ==> forms(i) == seq![Form::Long, Form::Word, Form::Base64],
        i == Import::InspectorOpen
            ==> forms(i) == seq![Form::Port(0)],
{
    if i == Import::FsExists || i == Import::FsUnlink || i == Import::CryptoSignOpen
        || i == Import::CryptoHashOpen || i == Import::StateDelete || i == Import::EmitRow
        || i == Import::SqliteOpen || i == Import::WorkerPostToParent {
        assert(forms(i) =~= seq![Form::Text]);
    }
    if i == Import::FsReadFile || i == Import::FsStat || i == Import::FsReaddir
        || i == Import::FsRealpath || i == Import::FsReadlink || i == Import::FsOpendir
        || i == Import::FsSize || i == Import::V8Serialize || i == Import::V8Deserialize
        || i == Import::DnsLookup || i == Import::StateGet || i == Import::ReadColumn
        || i == Import::GetEnv || i == Import::JwtDecode || i == Import::SharpRun
        || i == Import::SharpMetadata || i == Import::SharpStats {
        assert(forms(i) =~= seq![Form::Text, Form::Out]);
    }
    if i == Import::FsWriteFile || i == Import::CryptoHmacOpen || i == Import::StateSet {
        assert(forms(i) =~= seq![Form::Text, Form::Base64]);
    }
    if i == Import::FsRename || i == Import::Http3ListenSetCert || i == Import::BcryptVerify
        || i == Import::Argon2Verify || i == Import::WorkerSpawn || i == Import::WorkerPostError {
        assert(forms(i) =~= seq![Form::Text, Form::Text]);
    }
    if i == Import::FsMkdir {
        assert(forms(i) =~= seq![Form::Text, Form::Word]);
    }
    if i == Import::FsCp {
        assert(forms(i) =~= seq![Form::Text, Form::Text, Form::Word]);
    }
    if i == Import::FsWatchPoll {
        assert(forms(i) =~= seq![Form::Text, Form::Interval, Form::Out]);
    }
    if i == Import::FsReadChunk {
        assert(forms(i) =~= seq![Form::Text, Form::Word, Form::Word, Form::Word, Form::Out]);
    }
    if i == Import::FsWriteChunk {
        assert(forms(i) =~= seq![Form::Text, Form::Word, Form::Word, Form::Base64]);
    }
    if i == Import::CryptoHash {
        assert(forms(i) =~= seq![Form::Text, Form::Bytes, Form::Out]);
    }
    if i == Import::CryptoRandomBytes || i == Import::BcryptGenSalt
        || i == Import::DgramAddress {
        assert(forms(i) =~= seq![Form::Word, Form::Out]);
    }
    if i == Import::CryptoSubtleOp || i == Import::DnsResolveSoa || i == Import::TsTranspile {
        assert(forms(i) =~= seq![Form::Text, Form::Text, Form::Out]);
    }
    if i == Import::CryptoCheckPrime {
        assert(forms(i) =~= seq![Form::Hex, Form::Word]);
    }
    if i == Import::CryptoGeneratePrime {
        assert(forms(i) =~= seq![Form::Word, Form::Word, Form::Out]);
    }
    if i == Import::CryptoAesGcmEncrypt || i == Import::CryptoAesGcmDecrypt {
        assert(forms(i) =~= seq![Form::Text, Form::Base64, Form::Base64, Form::Base64, Form::Base64, Form::Out]);
    }
    if i == Import::CryptoAesCbcEncrypt || i == Import::CryptoAesCbcDecrypt {
        assert(forms(i) =~= seq![Form::Text, Form::Base64, Form::Base64, Form::Base64, Form::Out]);
    }
    if i == Import::CryptoPbkdf2 {
        assert(forms(i) =~= seq![Form::Text, Form::Text, Form::Base64, Form::Word, Form::Word, Form::Out]);
    }
    if i == Import::CryptoScrypt {
        assert(forms(i) =~= seq![Form::Text, Form::Base64, Form::Word, Form::Word, Form::Word, Form::Word, Form::Out]);
    }
    if i == Import::CryptoSign {
        assert(forms(i) =~= seq![Form::Text, Form::Text, Form::Base64, Form::Out]);
    }
    if i == Import::CryptoVerify {
        assert(forms(i) =~= seq![Form::Text, Form::Text, Form::Base64, Form::Base64]);
    }
    if i == Import::CryptoSignUpdate || i == Import::CryptoHashUpdate {
        assert(forms(i) =~= seq![Form::Long, Form::Base64]);
    }
    if i == Import::CryptoSignFinalize || i == Import::SqliteRun || i == Import::SqliteGet
        || i == Import::SqliteAll || i == Import::WasmCallExport {
        assert(forms(i) =~= seq![Form::Long, Form::Text, Form::Text, Form::Out]);
    }
    if i == Import::CryptoVerifyFinalize {
        assert(forms(i) =~= seq![Form::Long, Form::Text, Form::Text, Form::Base64]);
    }
    if i == Import::CryptoHashDigest {
        assert(forms(i) =~= seq![Form::Long, Form::Encoding, Form::Out]);
    }
    if i == Import::Http3Request {
        assert(forms(i) =~= seq![Form::Text, Form::Text, Form::Bytes, Form::Out]);
    }
    if i == Import::Http3Listen || i == Import::ColumnarReply || i == Import::TimerSet
        || i == Import::WorkerTerminate || i == Import::NetSetNoDelay {
        assert(forms(i) =~= seq![Form::Word, Form::Word]);
    }
    if i == Import::OsPlatform || i == Import::OsArch || i == Import::OsHomeDir
        || i == Import::OsTmpdir || i == Import::OsHostname || i == Import::LastError
        || i == Import::GetInput || i == Import::GetEnvelope || i == Import::WorkerData {
        assert(forms(i) =~= seq![Form::Out]);
    }
    if i == Import::HttpRequest {
        assert(forms(i) =~= seq![Form::Text, Form::Text, Form::BytesIfAny, Form::Out]);
    }
    if i == Import::HttpRequestAsync {
        assert(forms(i) =~= seq![Form::Text, Form::Text, Form::BytesIfAny]);
    }
    if i == Import::DnsResolve4 || i == Import::DnsResolve6 || i == Import::DnsResolveCname
        || i == Import::DnsResolveNs || i == Import::DnsReverse || i == Import::DnsResolveMx
        || i == Import::DnsResolveTxt || i == Import::ChildProcessExec {
        assert(forms(i) =~= seq![Form::Text, Form::TextOrEmpty, Form::Out]);
    }
    if i == Import::ZlibDeflate || i == Import::ZlibInflate || i == Import::ZlibGzip
        || i == Import::ZlibGunzip || i == Import::ZlibZstdCompress
        || i == Import::ZlibZstdDecompress {
        assert(forms(i) =~= seq![Form::Base64, Form::Out]);
    }
    if i == Import::StateIncrement {
        assert(forms(i) =~= seq![Form::Text, Form::Long]);
    }
    if i == Import::GetInputLen || i == Import::WorkerPostOnline || i == Import::WorkerThreadId
        || i == Import::WorkerIsMainThread || i == Import::InspectorClose {
        assert(forms(i) =~= Seq::<Form>::empty());
    }
    if i == Import::HttpListen {
        assert(forms(i) =~= seq![Form::Port(1)]);
    }
    if i == Import::HttpReply {
        assert(forms(i) =~= seq![Form::Long, Form::Bytes]);
    }
    if i == Import::HttpClose || i == Import::ProcessExit || i == Import::TimerClear
        || i == Import::TimerUnref || i == Import::TimerRef || i == Import::WorkerPid
        || i == Import::NetEnd || i == Import::NetDestroy || i == Import::NetPending
        || i == Import::NetCloseServer || i == Import::TlsEnd || i == Import::TlsDestroy
        || i == Import::TlsPending || i == Import::TlsCloseServer || i == Import::DgramClose {
        assert(forms(i) =~= seq![Form::Word]);
    }
    if i == Import::BcryptHash {
        assert(forms(i) =~= seq![Form::Text, Form::Word, Form::Out]);
    }
    if i == Import::Argon2Hash {
        assert(forms(i) =~= seq![Form::Text, Form::Word, Form::Word, Form::Word, Form::Word, Form::Out]);
    }
    if i == Import::Argon2NeedsRehash {
        assert(forms(i) =~= seq![Form::Text, Form::Word, Form::Word, Form::Word, Form::Word]);
    }
    if i == Import::JwtSign || i == Import::JwtVerify {
        assert(forms(i) =~= seq![Form::Text, Form::Bytes, Form::Text, Form::Out]);
    }
    if i == Import::SqliteExec {
        assert(forms(i) =~= seq![Form::Long, Form::Text]);
    }
    if i == Import::SqliteClose || i == Import::WasmDropModule || i == Import::WasmInstantiate
        || i == Import::WasmDropInstance || i == Import::WasmMemorySize {
        assert(forms(i) =~= seq![Form::Long]);
    }
    if i == Import::WorkerSpawnEnv {
        assert(forms(i) =~= seq![Form::Text, Form::Text, Form::TextOrEmpty]);
    }
    if i == Import::WorkerPostMessage || i == Import::NetWrite || i == Import::TlsWrite
        || i == Import::InspectorSend {
        assert(forms(i) =~= seq![Form::Word, Form::Text]);
    }
    if i == Import::NetConnect {
        assert(forms(i) =~= seq![Form::Text, Form::Port(1)]);
    }
    if i == Import::NetSetKeepAlive {
        assert(forms(i) =~= seq![Form::Word, Form::Word, Form::Word]);
    }
    if i == Import::NetListen || i == Import::DgramBind {
        assert(forms(i) =~= seq![Form::Text, Form::Port(0)]);
    }
    if i == Import::TlsConnect {
        assert(forms(i) =~= seq![Form::Text, Form::Port(1), Form::TextOrEmpty]);
    }
    if i == Import::TlsListen {
        assert(forms(i) =~= seq![Form::Text, Form::Port(0), Form::Text, Form::Text, Form::TextOrEmpty]);
    }
    if i == Import::DgramSend {
        assert(forms(i) =~= seq![Form::Word, Form::Text, Form::Port(0), Form::Base64]);
    }
    if i == Import::WasmCompile {
        assert(forms(i) =~= seq![Form::Base64]);
    }
    if i == Import::WasmModuleExports || i == Import::WasmModuleImports {
        assert(forms(i) =~= seq![Form::Long, Form::Out]);
    }
    if i == Import::WasmMemoryRead {
        assert(forms(i) =~= seq![Form::Long, Form::Word, Form::Word, Form::Out]);
    }
    if i == Import::WasmMemoryWrite {
        assert(forms(i) =~= seq![Form::Long, Form::Word, Form::Base64]);
    }
    if i == Import::InspectorOpen {
        assert(forms(i) =~= seq![Form::Port(0)]);
    }
}

/// What a function cannot read it refuses with the code of the coordinator in charge, with minus one or
/// zero where its answer is an id, and with minus three otherwise.
#[verifier::spinoff_prover]
#[verifier::rlimit(60)]
pub proof fn functions_refuse_with_their_codes(i: Import)
    ensures
        i == Import::DgramBind
            ==> codes(i)[0] == Code::BadHost,
        i == Import::HttpRequestAsync || i == Import::SqliteOpen || i == Import::WasmCompile
            ==> codes(i)[0] == Code::Fixed(-1i32),
        i == Import::InspectorOpen
            ==> codes(i)[0] == Code::Fixed(-2i32),
        i == Import::FsExists || i == Import::FsReadFile || i == Import::FsWriteFile
            || i == Import::FsStat || i == Import::FsUnlink || i == Import::FsRename
            || i == Import::FsMkdir || i == Import::FsReaddir || i == Import::FsRealpath
            || i == Import::FsReadlink || i == Import::FsCp || i == Import::FsOpendir
            || i == Import::FsWatchPoll || i == Import::FsReadChunk || i == Import::FsWriteChunk
            || i == Import::FsSize || i == Import::CryptoHash || i == Import::CryptoSubtleOp
            || i == Import::CryptoCheckPrime || i == Import::CryptoAesGcmEncrypt
            || i == Import::CryptoAesGcmDecrypt || i == Import::CryptoAesCbcEncrypt
            || i == Import::CryptoAesCbcDecrypt || i == Import::CryptoPbkdf2
            || i == Import::CryptoScrypt || i == Import::CryptoSign || i == Import::CryptoVerify
            || i == Import::Http3ListenSetCert || i == Import::Http3Request
            || i == Import::V8Serialize || i == Import::V8Deserialize || i == Import::HttpRequest
            || i == Import::DnsLookup || i == Import::DnsResolve4 || i == Import::DnsResolve6
            || i == Import::DnsResolveCname || i == Import::DnsResolveNs || i == Import::DnsReverse
            || i == Import::DnsResolveMx || i == Import::DnsResolveTxt || i == Import::DnsResolveSoa
            || i == Import::ZlibDeflate || i == Import::ZlibInflate || i == Import::ZlibGzip
            || i == Import::ZlibGunzip || i == Import::ZlibZstdCompress
            || i == Import::ZlibZstdDecompress || i == Import::StateGet || i == Import::StateSet
            || i == Import::StateDelete || i == Import::ReadColumn || i == Import::EmitRow
            || i == Import::GetEnv || i == Import::HttpListen || i == Import::BcryptHash
            || i == Import::BcryptVerify || i == Import::Argon2Hash || i == Import::Argon2Verify
            || i == Import::Argon2NeedsRehash || i == Import::JwtSign || i == Import::JwtVerify
            || i == Import::JwtDecode || i == Import::SharpRun || i == Import::SharpMetadata
            || i == Import::SharpStats || i == Import::TsTranspile || i == Import::ChildProcessExec
            ==> codes(i)[0] == Code::Fixed(-3i32),
        i == Import::CryptoSignOpen || i == Import::CryptoHashOpen
            || i == Import::CryptoHmacOpen || i == Import::StateIncrement
            ==> codes(i)[0] == Code::Fixed(0i32),
        i == Import::WorkerSpawn || i == Import::WorkerSpawnEnv
            || i == Import::WorkerPostToParent || i == Import::WorkerPostError
            || i == Import::NetConnect || i == Import::NetListen || i == Import::TlsConnect
            || i == Import::TlsListen
            ==> codes(i)[0] == Code::Other,
        i == Import::DgramSend
            ==> codes(i)[1] == Code::BadHost,
        i == Import::NetWrite || i == Import::TlsWrite
            ==> codes(i)[1] == Code::BadPayload,
        i == Import::NetConnect || i == Import::NetListen || i == Import::TlsConnect
            || i == Import::TlsListen || i == Import::DgramBind
            ==> codes(i)[1] == Code::BadPort,
        i == Import::HttpRequestAsync || i == Import::InspectorSend
            ==> codes(i)[1] == Code::Fixed(-1i32),
        i == Import::FsWriteFile || i == Import::FsRename || i == Import::FsCp
            || i == Import::FsWatchPoll || i == Import::CryptoHash || i == Import::CryptoSubtleOp
            || i == Import::CryptoAesGcmEncrypt || i == Import::CryptoAesGcmDecrypt
            || i == Import::CryptoAesCbcEncrypt || i == Import::CryptoAesCbcDecrypt
            || i == Import::CryptoPbkdf2 || i == Import::CryptoScrypt || i == Import::CryptoSign
            || i == Import::CryptoVerify || i == Import::CryptoSignUpdate
            || i == Import::CryptoSignFinalize || i == Import::CryptoVerifyFinalize
            || i == Import::CryptoHashUpdate || i == Import::CryptoHashDigest
            || i == Import::Http3ListenSetCert || i == Import::Http3Request
            || i == Import::HttpRequest || i == Import::DnsResolveSoa || i == Import::StateSet
            || i == Import::HttpReply || i == Import::BcryptVerify || i == Import::Argon2Verify
            || i == Import::JwtSign || i == Import::JwtVerify || i == Import::SqliteRun
            || i == Import::SqliteGet || i == Import::SqliteAll || i == Import::SqliteExec
            || i == Import::TsTranspile || i == Import::WasmCallExport
            ==> codes(i)[1] == Code::Fixed(-3i32),
        i == Import::CryptoHmacOpen
            ==> codes(i)[1] == Code::Fixed(0i32),
        i == Import::WorkerSpawn || i == Import::WorkerSpawnEnv
            || i == Import::WorkerPostMessage || i == Import::WorkerPostError
            ==> codes(i)[1] == Code::Other,
        i == Import::TlsListen
            ==> codes(i)[2] == Code::BadCert,
        i == Import::DgramSend
            ==> codes(i)[2] == Code::BadPort,
        i == Import::HttpRequestAsync
            ==> codes(i)[2] == Code::Fixed(-1i32),
        i == Import::CryptoAesGcmEncrypt || i == Import::CryptoAesGcmDecrypt
            || i == Import::CryptoAesCbcEncrypt || i == Import::CryptoAesCbcDecrypt
            || i == Import::CryptoPbkdf2 || i == Import::CryptoSign || i == Import::CryptoVerify
            || i == Import::CryptoSignFinalize || i == Import::CryptoVerifyFinalize
            || i == Import::Http3Request || i == Import::HttpRequest || i == Import::JwtSign
            || i == Import::JwtVerify || i == Import::SqliteRun || i == Import::SqliteGet
            || i == Import::SqliteAll || i == Import::WasmCallExport || i == Import::WasmMemoryWrite
            ==> codes(i)[2] == Code::Fixed(-3i32),
        i == Import::TlsListen
            ==> codes(i)[3] == Code::BadCert,
        i == Import::DgramSend
            ==> codes(i)[3] == Code::BadPayload,
        i == Import::FsWriteChunk || i == Import::CryptoAesGcmEncrypt
            || i == Import::CryptoAesGcmDecrypt || i == Import::CryptoAesCbcEncrypt
            || i == Import::CryptoAesCbcDecrypt || i == Import::CryptoVerify
            || i == Import::CryptoVerifyFinalize
            ==> codes(i)[3] == Code::Fixed(-3i32),
        i == Import::CryptoAesGcmEncrypt || i == Import::CryptoAesGcmDecrypt
            ==> codes(i)[4] == Code::Fixed(-3i32),
{
}

/// A function that needs a service says so before it reads its arguments, or behind that, and with its
/// own code; one that reads memory says so where there is none.
#[verifier::spinoff_prover]
#[verifier::rlimit(60)]
pub proof fn functions_need_their_services(i: Import)
    ensures
        !(i == Import::Http3Request || i == Import::Http3Listen || i == Import::HttpRequestAsync
            || i == Import::HttpListen || i == Import::HttpReply || i == Import::HttpClose
            || i == Import::BcryptHash || i == Import::BcryptVerify || i == Import::BcryptGenSalt
            || i == Import::Argon2Hash || i == Import::Argon2Verify
            || i == Import::Argon2NeedsRehash || i == Import::JwtSign || i == Import::JwtVerify
            || i == Import::JwtDecode || i == Import::SqliteOpen || i == Import::SqliteRun
            || i == Import::SqliteGet || i == Import::SqliteAll || i == Import::SqliteExec
            || i == Import::SqliteClose || i == Import::SharpRun || i == Import::SharpMetadata
            || i == Import::SharpStats || i == Import::TsTranspile || i == Import::TimerSet
            || i == Import::WorkerSpawn || i == Import::WorkerSpawnEnv || i == Import::WorkerPid
            || i == Import::WorkerPostMessage || i == Import::WorkerTerminate
            || i == Import::WorkerPostToParent || i == Import::WorkerPostOnline
            || i == Import::WorkerPostError || i == Import::WorkerThreadId
            || i == Import::WorkerIsMainThread || i == Import::NetConnect || i == Import::NetWrite
            || i == Import::NetEnd || i == Import::NetDestroy || i == Import::NetPending
            || i == Import::NetSetNoDelay || i == Import::NetSetKeepAlive || i == Import::NetListen
            || i == Import::NetCloseServer || i == Import::TlsConnect || i == Import::TlsWrite
            || i == Import::TlsEnd || i == Import::TlsDestroy || i == Import::TlsPending
            || i == Import::TlsListen || i == Import::TlsCloseServer || i == Import::DgramBind
            || i == Import::DgramSend || i == Import::DgramClose || i == Import::DgramAddress
            || i == Import::InspectorOpen || i == Import::InspectorClose
            || i == Import::InspectorSend)
            ==> shape_of(i).presence is Needless,
        i == Import::Http3Request || i == Import::HttpRequestAsync || i == Import::BcryptHash
            || i == Import::BcryptVerify || i == Import::Argon2Hash || i == Import::Argon2Verify
            || i == Import::Argon2NeedsRehash || i == Import::JwtSign || i == Import::JwtVerify
            || i == Import::JwtDecode || i == Import::SqliteOpen || i == Import::TsTranspile
            || i == Import::InspectorOpen || i == Import::InspectorSend
            ==> (shape_of(i).presence matches PresenceView::Last(c, _) && c == Code::Fixed(-1i32)),
        i == Import::Http3Listen || i == Import::HttpListen || i == Import::BcryptGenSalt
            || i == Import::TimerSet
            ==> (shape_of(i).presence matches PresenceView::First(c, _) && c == Code::Fixed(-1i32)),
        i == Import::HttpReply || i == Import::SqliteClose
            ==> (shape_of(i).presence matches PresenceView::First(c, _) && c == Code::Fixed(-3i32)),
        i == Import::HttpClose || i == Import::WorkerPid || i == Import::WorkerThreadId
            || i == Import::NetPending || i == Import::TlsPending
            ==> (shape_of(i).presence matches PresenceView::First(c, _) && c == Code::Fixed(0i32)),
        i == Import::SqliteRun || i == Import::SqliteGet || i == Import::SqliteAll
            || i == Import::SqliteExec || i == Import::SharpRun || i == Import::SharpMetadata
            || i == Import::SharpStats
            ==> (shape_of(i).presence matches PresenceView::Last(c, _) && c == Code::Fixed(-3i32)),
        i == Import::WorkerSpawn || i == Import::WorkerSpawnEnv
            || i == Import::WorkerPostMessage || i == Import::WorkerPostToParent
            || i == Import::WorkerPostError || i == Import::NetConnect || i == Import::NetWrite
            || i == Import::NetListen || i == Import::TlsConnect || i == Import::TlsWrite
            || i == Import::TlsListen || i == Import::DgramBind || i == Import::DgramSend
            || i == Import::DgramAddress
            ==> (shape_of(i).presence matches PresenceView::Last(c, _) && c == Code::NoDaemon),
        i == Import::WorkerTerminate || i == Import::WorkerPostOnline || i == Import::NetEnd
            || i == Import::NetDestroy || i == Import::NetSetNoDelay || i == Import::NetSetKeepAlive
            || i == Import::NetCloseServer || i == Import::TlsEnd || i == Import::TlsDestroy
            || i == Import::TlsCloseServer || i == Import::DgramClose
            ==> (shape_of(i).presence matches PresenceView::First(c, _) && c == Code::NoDaemon),
        i == Import::WorkerIsMainThread
            ==> (shape_of(i).presence matches PresenceView::First(c, _) && c == Code::Fixed(1i32)),
        i == Import::InspectorClose
            ==> (shape_of(i).presence matches PresenceView::First(c, _) && c == Code::Fixed(-4i32)),
        !(i == Import::CryptoSignOpen || i == Import::CryptoHashOpen
            || i == Import::CryptoHmacOpen || i == Import::HttpRequestAsync
            || i == Import::StateIncrement || i == Import::SqliteOpen || i == Import::WorkerSpawn
            || i == Import::WorkerSpawnEnv || i == Import::WorkerPostMessage
            || i == Import::WorkerPostToParent || i == Import::WorkerPostError
            || i == Import::WorkerData || i == Import::NetConnect || i == Import::NetWrite
            || i == Import::NetListen || i == Import::TlsConnect || i == Import::TlsWrite
            || i == Import::TlsListen || i == Import::DgramBind || i == Import::DgramSend
            || i == Import::DgramAddress || i == Import::WasmCompile || i == Import::InspectorSend)
            ==> shape_of(i).no_memory == Code::Fixed(-3i32),
        i == Import::CryptoSignOpen || i == Import::CryptoHashOpen
            || i == Import::CryptoHmacOpen || i == Import::StateIncrement
            ==> shape_of(i).no_memory == Code::Fixed(0i32),
        i == Import::HttpRequestAsync || i == Import::SqliteOpen || i == Import::WasmCompile
            || i == Import::InspectorSend
            ==> shape_of(i).no_memory == Code::Fixed(-1i32),
        i == Import::WorkerSpawn || i == Import::WorkerSpawnEnv
            || i == Import::WorkerPostMessage || i == Import::WorkerPostToParent
            || i == Import::WorkerPostError || i == Import::WorkerData || i == Import::NetConnect
            || i == Import::NetWrite || i == Import::NetListen || i == Import::TlsConnect
            || i == Import::TlsWrite || i == Import::TlsListen || i == Import::DgramBind
            || i == Import::DgramSend || i == Import::DgramAddress
            ==> shape_of(i).no_memory == Code::Other,
{
}

/// Every function answers in its own way: with a long number where it gives an id or a size, with none
/// where there is nothing to say; binary data in base64 or in hexadecimal; and a failure with its own
/// number, or with that of the error.
#[verifier::spinoff_prover]
#[verifier::rlimit(60)]
pub proof fn functions_answer_in_their_way(i: Import)
    ensures
        returned_by(i) == Returned::Long <==> (i == Import::CryptoSignOpen || i == Import::CryptoHashOpen
            || i == Import::CryptoHmacOpen || i == Import::HttpRequestAsync
            || i == Import::StateIncrement || i == Import::SqliteOpen || i == Import::WasmCompile
            || i == Import::WasmInstantiate || i == Import::WasmMemorySize),
        returned_by(i) == Returned::Nothing <==> (i == Import::ProcessExit || i == Import::TimerClear || i == Import::TimerUnref
            || i == Import::TimerRef),
        encoding_of(i) == Encoding::Base64 <==> (i == Import::FsReadFile || i == Import::FsReadChunk || i == Import::CryptoAesGcmEncrypt
            || i == Import::CryptoAesGcmDecrypt || i == Import::CryptoAesCbcEncrypt
            || i == Import::CryptoAesCbcDecrypt || i == Import::CryptoPbkdf2
            || i == Import::CryptoScrypt || i == Import::CryptoSign
            || i == Import::CryptoSignFinalize || i == Import::ZlibDeflate
            || i == Import::ZlibInflate || i == Import::ZlibGzip || i == Import::ZlibGunzip
            || i == Import::ZlibZstdCompress || i == Import::ZlibZstdDecompress
            || i == Import::StateGet || i == Import::SharpRun || i == Import::WasmMemoryRead),
        encoding_of(i) == Encoding::Hex <==> (i == Import::CryptoHash || i == Import::CryptoRandomBytes
            || i == Import::CryptoGeneratePrime),
        i == Import::CryptoSignOpen || i == Import::CryptoHashOpen
            || i == Import::CryptoHmacOpen
            ==> failure_of(i) == FailureView::Plain(0i32),
        i == Import::EmitRow
            ==> failure_of(i) == FailureView::Prefixed("emit_row: "@, -3i32),
        i == Import::HttpReply
            ==> failure_of(i) == FailureView::Prefixed("http_reply json: "@, -3i32),
        i == Import::BcryptHash || i == Import::BcryptVerify || i == Import::BcryptGenSalt
            || i == Import::Argon2Hash || i == Import::Argon2Verify
            || i == Import::Argon2NeedsRehash || i == Import::JwtSign || i == Import::JwtVerify
            || i == Import::JwtDecode || i == Import::SqliteOpen || i == Import::WasmCompile
            || i == Import::WasmInstantiate || i == Import::WasmMemorySize
            ==> failure_of(i) == FailureView::Plain(-1i32),
        i == Import::SqliteRun || i == Import::SqliteGet || i == Import::SqliteAll
            || i == Import::SqliteExec || i == Import::SqliteClose || i == Import::SharpRun
            || i == Import::SharpMetadata || i == Import::SharpStats
            || i == Import::WasmModuleExports || i == Import::WasmModuleImports
            || i == Import::WasmCallExport || i == Import::WasmMemoryRead
            || i == Import::WasmMemoryWrite
            ==> failure_of(i) == FailureView::Plain(-3i32),
        i == Import::TsTranspile
            ==> failure_of(i) == FailureView::Prefixed("ts_transpile: "@, -3i32),
        failure_of(i) is Mapped <==> !(i == Import::CryptoSignOpen || i == Import::CryptoHashOpen
            || i == Import::CryptoHmacOpen || i == Import::EmitRow || i == Import::HttpReply
            || i == Import::BcryptHash || i == Import::BcryptVerify || i == Import::BcryptGenSalt
            || i == Import::Argon2Hash || i == Import::Argon2Verify
            || i == Import::Argon2NeedsRehash || i == Import::JwtSign || i == Import::JwtVerify
            || i == Import::JwtDecode || i == Import::SqliteOpen || i == Import::WasmCompile
            || i == Import::WasmInstantiate || i == Import::WasmMemorySize || i == Import::SqliteRun
            || i == Import::SqliteGet || i == Import::SqliteAll || i == Import::SqliteExec
            || i == Import::SqliteClose || i == Import::SharpRun || i == Import::SharpMetadata
            || i == Import::SharpStats || i == Import::WasmModuleExports
            || i == Import::WasmModuleImports || i == Import::WasmCallExport
            || i == Import::WasmMemoryRead || i == Import::WasmMemoryWrite
            || i == Import::TsTranspile),
        crypto_denial(i) is Some <==> i == Import::CryptoHashOpen || i == Import::CryptoHmacOpen,
{
}

/// Every function has the name under which the guest imports it.
#[verifier::spinoff_prover]
#[verifier::rlimit(60)]
pub proof fn functions_have_their_names(i: Import)
    ensures
        i == Import::FsExists ==> name_of(i) == "host_fs_exists_sync"@,
        i == Import::FsReadFile ==> name_of(i) == "host_fs_read_file_sync"@,
        i == Import::FsWriteFile ==> name_of(i) == "host_fs_write_file_sync"@,
        i == Import::FsStat ==> name_of(i) == "host_fs_stat_sync"@,
        i == Import::FsUnlink ==> name_of(i) == "host_fs_unlink_sync"@,
        i == Import::FsRename ==> name_of(i) == "host_fs_rename_sync"@,
        i == Import::FsMkdir ==> name_of(i) == "host_fs_mkdir_sync"@,
        i == Import::FsReaddir ==> name_of(i) == "host_fs_readdir_sync"@,
        i == Import::FsRealpath ==> name_of(i) == "host_fs_realpath_sync"@,
        i == Import::FsReadlink ==> name_of(i) == "host_fs_readlink_sync"@,
        i == Import::FsCp ==> name_of(i) == "host_fs_cp"@,
        i == Import::FsOpendir ==> name_of(i) == "host_fs_opendir_sync"@,
        i == Import::FsWatchPoll ==> name_of(i) == "host_fs_watch_poll"@,
        i == Import::FsReadChunk ==> name_of(i) == "host_fs_read_chunk"@,
        i == Import::FsWriteChunk ==> name_of(i) == "host_fs_write_chunk"@,
        i == Import::FsSize ==> name_of(i) == "host_fs_size"@,
        i == Import::CryptoHash ==> name_of(i) == "host_crypto_hash"@,
        i == Import::CryptoRandomBytes ==> name_of(i) == "host_crypto_random_bytes"@,
        i == Import::CryptoSubtleOp ==> name_of(i) == "host_crypto_subtle_op"@,
        i == Import::CryptoCheckPrime ==> name_of(i) == "host_crypto_check_prime"@,
        i == Import::CryptoGeneratePrime ==> name_of(i) == "host_crypto_generate_prime"@,
        i == Import::CryptoAesGcmEncrypt ==> name_of(i) == "host_crypto_aes_gcm_encrypt"@,
        i == Import::CryptoAesGcmDecrypt ==> name_of(i) == "host_crypto_aes_gcm_decrypt"@,
        i == Import::CryptoAesCbcEncrypt ==> name_of(i) == "host_crypto_aes_cbc_encrypt"@,
        i == Import::CryptoAesCbcDecrypt ==> name_of(i) == "host_crypto_aes_cbc_decrypt"@,
        i == Import::CryptoPbkdf2 ==> name_of(i) == "host_crypto_pbkdf2_sync"@,
        i == Import::CryptoScrypt ==> name_of(i) == "host_crypto_scrypt_sync"@,
        i == Import::CryptoSign ==> name_of(i) == "host_crypto_sign"@,
        i == Import::CryptoVerify ==> name_of(i) == "host_crypto_verify"@,
        i == Import::CryptoSignOpen ==> name_of(i) == "host_crypto_sign_open"@,
        i == Import::CryptoSignUpdate ==> name_of(i) == "host_crypto_sign_update"@,
        i == Import::CryptoSignFinalize ==> name_of(i) == "host_crypto_sign_finalize"@,
        i == Import::CryptoVerifyFinalize ==> name_of(i) == "host_crypto_verify_finalize"@,
        i == Import::CryptoHashOpen ==> name_of(i) == "host_crypto_hash_open"@,
        i == Import::CryptoHmacOpen ==> name_of(i) == "host_crypto_hmac_open"@,
        i == Import::CryptoHashUpdate ==> name_of(i) == "host_crypto_hash_update"@,
        i == Import::CryptoHashDigest ==> name_of(i) == "host_crypto_hash_digest"@,
        i == Import::Http3ListenSetCert ==> name_of(i) == "host_http3_listen_set_cert"@,
        i == Import::Http3Request ==> name_of(i) == "host_http3_request"@,
        i == Import::Http3Listen ==> name_of(i) == "host_http3_listen"@,
        i == Import::V8Serialize ==> name_of(i) == "host_v8_serialize"@,
        i == Import::V8Deserialize ==> name_of(i) == "host_v8_deserialize"@,
        i == Import::OsPlatform ==> name_of(i) == "host_os_platform"@,
        i == Import::OsArch ==> name_of(i) == "host_os_arch"@,
        i == Import::OsHomeDir ==> name_of(i) == "host_os_home_dir"@,
        i == Import::OsTmpdir ==> name_of(i) == "host_os_tmpdir"@,
        i == Import::OsHostname ==> name_of(i) == "host_os_hostname"@,
        i == Import::HttpRequest ==> name_of(i) == "host_http_request"@,
        i == Import::HttpRequestAsync ==> name_of(i) == "host_http_request_async"@,
        i == Import::DnsLookup ==> name_of(i) == "host_dns_lookup"@,
        i == Import::DnsResolve4 ==> name_of(i) == "host_dns_resolve4"@,
        i == Import::DnsResolve6 ==> name_of(i) == "host_dns_resolve6"@,
        i == Import::DnsResolveCname ==> name_of(i) == "host_dns_resolve_cname"@,
        i == Import::DnsResolveNs ==> name_of(i) == "host_dns_resolve_ns"@,
        i == Import::DnsReverse ==> name_of(i) == "host_dns_reverse"@,
        i == Import::DnsResolveMx ==> name_of(i) == "host_dns_resolve_mx"@,
        i == Import::DnsResolveTxt ==> name_of(i) == "host_dns_resolve_txt"@,
        i == Import::DnsResolveSoa ==> name_of(i) == "host_dns_resolve_soa"@,
        i == Import::ZlibDeflate ==> name_of(i) == "host_zlib_deflate_sync"@,
        i == Import::ZlibInflate ==> name_of(i) == "host_zlib_inflate_sync"@,
        i == Import::ZlibGzip ==> name_of(i) == "host_zlib_gzip_sync"@,
        i == Import::ZlibGunzip ==> name_of(i) == "host_zlib_gunzip_sync"@,
        i == Import::ZlibZstdCompress ==> name_of(i) == "host_zlib_zstd_compress_sync"@,
        i == Import::ZlibZstdDecompress ==> name_of(i) == "host_zlib_zstd_decompress_sync"@,
        i == Import::StateGet ==> name_of(i) == "host_state_get"@,
        i == Import::StateSet ==> name_of(i) == "host_state_set"@,
        i == Import::StateDelete ==> name_of(i) == "host_state_delete"@,
        i == Import::StateIncrement ==> name_of(i) == "host_state_increment"@,
        i == Import::ReadColumn ==> name_of(i) == "host_read_column"@,
        i == Import::EmitRow ==> name_of(i) == "host_emit_row"@,
        i == Import::GetEnv ==> name_of(i) == "host_get_env"@,
        i == Import::LastError ==> name_of(i) == "host_last_error"@,
        i == Import::GetInput ==> name_of(i) == "host_get_input"@,
        i == Import::GetInputLen ==> name_of(i) == "host_get_input_len"@,
        i == Import::ColumnarReply ==> name_of(i) == "host_columnar_reply"@,
        i == Import::GetEnvelope ==> name_of(i) == "host_get_envelope"@,
        i == Import::HttpListen ==> name_of(i) == "host_http_listen"@,
        i == Import::HttpReply ==> name_of(i) == "host_http_reply"@,
        i == Import::HttpClose ==> name_of(i) == "host_http_close"@,
        i == Import::BcryptHash ==> name_of(i) == "host_shadow_bcrypt_hash"@,
        i == Import::BcryptVerify ==> name_of(i) == "host_shadow_bcrypt_verify"@,
        i == Import::BcryptGenSalt ==> name_of(i) == "host_shadow_bcrypt_gen_salt"@,
        i == Import::Argon2Hash ==> name_of(i) == "host_shadow_argon2_hash"@,
        i == Import::Argon2Verify ==> name_of(i) == "host_shadow_argon2_verify"@,
        i == Import::Argon2NeedsRehash ==> name_of(i) == "host_shadow_argon2_needs_rehash"@,
        i == Import::JwtSign ==> name_of(i) == "host_shadow_jwt_sign"@,
        i == Import::JwtVerify ==> name_of(i) == "host_shadow_jwt_verify"@,
        i == Import::JwtDecode ==> name_of(i) == "host_shadow_jwt_decode"@,
        i == Import::SqliteOpen ==> name_of(i) == "host_shadow_sqlite3_open"@,
        i == Import::SqliteRun ==> name_of(i) == "host_shadow_sqlite3_run"@,
        i == Import::SqliteGet ==> name_of(i) == "host_shadow_sqlite3_get"@,
        i == Import::SqliteAll ==> name_of(i) == "host_shadow_sqlite3_all"@,
        i == Import::SqliteExec ==> name_of(i) == "host_shadow_sqlite3_exec"@,
        i == Import::SqliteClose ==> name_of(i) == "host_shadow_sqlite3_close"@,
        i == Import::SharpRun ==> name_of(i) == "host_shadow_sharp_run"@,
        i == Import::SharpMetadata ==> name_of(i) == "host_shadow_sharp_metadata"@,
        i == Import::SharpStats ==> name_of(i) == "host_shadow_sharp_stats"@,
        i == Import::TsTranspile ==> name_of(i) == "host_ts_transpile"@,
        i == Import::ProcessExit ==> name_of(i) == "host_process_exit"@,
        i == Import::TimerSet ==> name_of(i) == "host_timer_set"@,
        i == Import::TimerClear ==> name_of(i) == "host_timer_clear"@,
        i == Import::TimerUnref ==> name_of(i) == "host_timer_unref"@,
        i == Import::TimerRef ==> name_of(i) == "host_timer_ref"@,
        i == Import::WorkerSpawn ==> name_of(i) == "host_worker_spawn"@,
        i == Import::WorkerSpawnEnv ==> name_of(i) == "host_worker_spawn_env"@,
        i == Import::WorkerPid ==> name_of(i) == "host_worker_pid"@,
        i == Import::WorkerPostMessage ==> name_of(i) == "host_worker_post_message"@,
        i == Import::WorkerTerminate ==> name_of(i) == "host_worker_terminate"@,
        i == Import::WorkerPostToParent ==> name_of(i) == "host_worker_post_to_parent"@,
        i == Import::WorkerPostOnline ==> name_of(i) == "host_worker_post_online_to_parent"@,
        i == Import::WorkerPostError ==> name_of(i) == "host_worker_post_error_to_parent"@,
        i == Import::WorkerThreadId ==> name_of(i) == "host_worker_thread_id"@,
        i == Import::WorkerIsMainThread ==> name_of(i) == "host_worker_is_main_thread"@,
        i == Import::WorkerData ==> name_of(i) == "host_worker_data"@,
        i == Import::NetConnect ==> name_of(i) == "host_net_connect"@,
        i == Import::NetWrite ==> name_of(i) == "host_net_write"@,
        i == Import::NetEnd ==> name_of(i) == "host_net_end"@,
        i == Import::NetDestroy ==> name_of(i) == "host_net_destroy"@,
        i == Import::NetPending ==> name_of(i) == "host_net_pending"@,
        i == Import::NetSetNoDelay ==> name_of(i) == "host_net_set_no_delay"@,
        i == Import::NetSetKeepAlive ==> name_of(i) == "host_net_set_keep_alive"@,
        i == Import::NetListen ==> name_of(i) == "host_net_listen"@,
        i == Import::NetCloseServer ==> name_of(i) == "host_net_close_server"@,
        i == Import::TlsConnect ==> name_of(i) == "host_tls_connect"@,
        i == Import::TlsWrite ==> name_of(i) == "host_tls_write"@,
        i == Import::TlsEnd ==> name_of(i) == "host_tls_end"@,
        i == Import::TlsDestroy ==> name_of(i) == "host_tls_destroy"@,
        i == Import::TlsPending ==> name_of(i) == "host_tls_pending"@,
        i == Import::TlsListen ==> name_of(i) == "host_tls_listen"@,
        i == Import::TlsCloseServer ==> name_of(i) == "host_tls_close_server"@,
        i == Import::DgramBind ==> name_of(i) == "host_dgram_bind"@,
        i == Import::DgramSend ==> name_of(i) == "host_dgram_send"@,
        i == Import::DgramClose ==> name_of(i) == "host_dgram_close"@,
        i == Import::DgramAddress ==> name_of(i) == "host_dgram_address"@,
        i == Import::ChildProcessExec ==> name_of(i) == "host_child_process_exec_sync"@,
        i == Import::WasmCompile ==> name_of(i) == "host_wasm_compile"@,
        i == Import::WasmDropModule ==> name_of(i) == "host_wasm_drop_module"@,
        i == Import::WasmModuleExports ==> name_of(i) == "host_wasm_module_exports"@,
        i == Import::WasmModuleImports ==> name_of(i) == "host_wasm_module_imports"@,
        i == Import::WasmInstantiate ==> name_of(i) == "host_wasm_instantiate"@,
        i == Import::WasmDropInstance ==> name_of(i) == "host_wasm_drop_instance"@,
        i == Import::WasmCallExport ==> name_of(i) == "host_wasm_call_export"@,
        i == Import::WasmMemoryRead ==> name_of(i) == "host_wasm_memory_read"@,
        i == Import::WasmMemoryWrite ==> name_of(i) == "host_wasm_memory_write"@,
        i == Import::WasmMemorySize ==> name_of(i) == "host_wasm_memory_size"@,
        i == Import::InspectorOpen ==> name_of(i) == "host_inspector_open"@,
        i == Import::InspectorClose ==> name_of(i) == "host_inspector_close"@,
        i == Import::InspectorSend ==> name_of(i) == "host_inspector_send"@,
{
}

/// A place for the answer comes behind everything else, and there is at most one.
#[verifier::spinoff_prover]
#[verifier::rlimit(60)]
pub proof fn answers_come_last(i: Import, k: int)
    requires
        0 <= k < forms(i).len(),
        forms(i)[k] is Out,
    ensures
        k == forms(i).len() - 1,
{
    functions_take_their_arguments(i);
}

} // verus!
