//! The document session: the editable text buffer and the path of the file
//! it was loaded from, if any.
use vstd::prelude::*;
use vstd::utf8::*;
use crate::loader::{LoadError, LoadErrorModel, LoadResult, LoadResultModel, load_outcome};

verus! {

/// Mathematical model of a [`DocumentSession`]: the characters of the buffer
/// and the path most recently loaded with success, if any.
pub ghost struct SessionModel {
    pub buffer: Seq<char>,
    pub source_path: Option<Seq<char>>,
}

/// The text shown until a file is opened.
pub open spec fn placeholder_text() -> Seq<char> {
    "# Welcome to md-view!\n\nThis is **bold text** and *italic text*.\n\n## Features\n- Open files from command line\n- Live preview\n- Powered by Rust 🦀"@
}

/// The session state at process start: the placeholder buffer and no path.
pub open spec fn initial_session() -> SessionModel {
    SessionModel { buffer: placeholder_text(), source_path: None }
}

/// The session state after one user edit: the buffer is replaced, the
/// source path is untouched.
pub open spec fn session_after_edit(s: SessionModel, new_buffer: Seq<char>) -> SessionModel {
    SessionModel { buffer: new_buffer, source_path: s.source_path }
}

/// The session state after a whole sequence of user edits, applied in order.
pub open spec fn session_after_edits(s: SessionModel, edits: Seq<Seq<char>>) -> SessionModel
    decreases edits.len(),
{
    if edits.len() == 0 {
        s
    } else {
        session_after_edits(session_after_edit(s, edits[0]), edits.drop_first())
    }
}

/// No sequence of user edits ever changes the source path: only a
/// successful load may do that.
pub proof fn lemma_edits_preserve_source_path(s: SessionModel, edits: Seq<Seq<char>>)
    ensures
        session_after_edits(s, edits).source_path == s.source_path,
    decreases edits.len(),
{
    if edits.len() > 0 {
        lemma_edits_preserve_source_path(session_after_edit(s, edits[0]), edits.drop_first());
    }
}

/// The session state after one load attempt: a successful load replaces the
/// buffer and the source path together; a failed one changes nothing.
pub open spec fn session_after_load(s: SessionModel, r: LoadResultModel) -> SessionModel {
    match r {
        LoadResultModel::Loaded { text, path } => SessionModel {
            buffer: text,
            source_path: Some(path),
        },
        LoadResultModel::Failed { .. } => s,
    }
}

/// Loading a file whose bytes are valid UTF-8 round-trips byte for byte:
/// afterwards the buffer is exactly the decoding of the bytes read, it
/// re-encodes to exactly those bytes, and the source path is the loaded
/// path.
pub proof fn lemma_load_round_trip(s: SessionModel, path: Seq<char>, bytes: Seq<u8>)
    requires
        valid_utf8(bytes),
    ensures
        session_after_load(s, load_outcome(path, Ok(bytes))).buffer == decode_utf8(bytes),
        encode_utf8(session_after_load(s, load_outcome(path, Ok(bytes))).buffer) == bytes,
        session_after_load(s, load_outcome(path, Ok(bytes))).source_path == Some(path),
{
    decode_utf8_encode_utf8(bytes);
}

/// Loading bytes that are not valid UTF-8 fails with the encoding error and
/// leaves both the buffer and the source path exactly as they were.
pub proof fn lemma_invalid_load_changes_nothing(s: SessionModel, path: Seq<char>, bytes: Seq<u8>)
    requires
        !valid_utf8(bytes),
    ensures
        load_outcome(path, Ok(bytes)) == (LoadResultModel::Failed {
            path,
            reason: LoadErrorModel::InvalidEncoding,
        }),
        session_after_load(s, load_outcome(path, Ok(bytes))) == s,
{
}

/// A failed load, whatever its reason, leaves the session exactly as it
/// was: no partial update is ever visible.
pub proof fn lemma_failed_load_changes_nothing(s: SessionModel, r: LoadResultModel)
    requires
        r is Failed,
    ensures
        session_after_load(s, r) == s,
{
}

/// The one document open in the viewer: its editable text and, when a file
/// has been loaded, the path it came from.
pub struct DocumentSession {
    buffer: String,
    source_path: Option<String>,
}

impl View for DocumentSession {
    type V = SessionModel;

    closed spec fn view(&self) -> SessionModel {
        SessionModel {
            buffer: self.buffer@,
            source_path: match self.source_path {
                Some(p) => Some(p@),
                None => None,
            },
        }
    }
}

impl DocumentSession {
    /// Creates the session in its start state: the fixed placeholder buffer
    /// and no source path.
    pub fn initialize() -> (s: Self)
        ensures
            s@ == initial_session(),
    {
        DocumentSession {
            buffer: "# Welcome to md-view!\n\nThis is **bold text** and *italic text*.\n\n## Features\n- Open files from command line\n- Live preview\n- Powered by Rust 🦀".to_owned(),
            source_path: None,
        }
    }

    /// Replaces the buffer with what the user typed; the source path is
    /// never touched by an edit.
    pub fn edit(&mut self, new_buffer: String)
        ensures
            final(self)@ == session_after_edit(old(self)@, new_buffer@),
    {
        self.buffer = new_buffer;
    }

    /// The live buffer, for display in the editor and preview panes of one
    /// refresh cycle; both readers see the same value.
    pub fn current_buffer(&self) -> (b: &String)
        ensures
            b@ == self@.buffer,
    {
        &self.buffer
    }

    /// Applies one load attempt's outcome: a successful load replaces the
    /// buffer and the source path as one atomic update; a failed load leaves
    /// the session exactly as it was and hands the reason back to the
    /// caller to report.
    pub fn apply_load(&mut self, result: LoadResult) -> (r: Option<LoadError>)
        ensures
            final(self)@ == session_after_load(old(self)@, result@),
            r is None <==> result@ is Loaded,
            result matches LoadResult::Failed { reason, .. } ==> r == Some(reason),
    {
        match result {
            LoadResult::Loaded { text, path } => {
                self.buffer = text;
                self.source_path = Some(path);
                None
            },
            LoadResult::Failed { path: _, reason } => Some(reason),
        }
    }

    /// The path of the most recently loaded file, if any.
    pub fn source_path(&self) -> (p: Option<&String>)
        ensures
            p is Some <==> self@.source_path is Some,
            p matches Some(q) ==> self@.source_path == Some(q@),
    {
        self.source_path.as_ref()
    }
}

} // verus!
