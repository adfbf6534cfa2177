//! Stream states, output kinds and analysis kinds, and their text forms.
use vstd::prelude::*;
use crate::clock::UnixNanos;
use crate::text::{ascii_lower, is_ascii_text, join2, lowercase, text_eq};

verus! {

/// Lower case form of a text; for ASCII texts it is spelled out.
pub open spec fn lower_text(s: Seq<char>) -> Seq<char> {
    if is_ascii_text(s) {
        s.map_values(|c: char| ascii_lower(c))
    } else {
        lowercase(s)
    }
}

fn to_lower(s: &str) -> (r: String)
    ensures
        r@ == lower_text(s@),
{
    s.to_lowercase()
}

// ---------------------------------------------------------------- stream status

/// Connection state of a stream.
#[derive(Debug, Clone, Copy, PartialEq, Eq, Structural)]
pub enum StreamStatus {
    /// Stopped by hand.
    Stopped,
    /// Bound and waiting for packets or for a connection.
    Listening,
    /// A caller that tries to connect.
    Connecting,
    /// Connection established.
    Connected,
    /// Connection lost, trying again.
    Reconnecting,
    /// Failed for good.
    Error,
}

impl StreamStatus {
    /// The word for a status.
    pub open spec fn text(self) -> Seq<char> {
        match self {
            StreamStatus::Stopped => "stopped"@,
            StreamStatus::Listening => "listening"@,
            StreamStatus::Connecting => "connecting"@,
            StreamStatus::Connected => "connected"@,
            StreamStatus::Reconnecting => "reconnecting"@,
            StreamStatus::Error => "error"@,
        }
    }

    /// The status that a word in lower case stands for. `running` is an older word for
    /// `connected`.
    pub open spec fn of_word(w: Seq<char>) -> Option<StreamStatus> {
        if w == "stopped"@ {
            Some(StreamStatus::Stopped)
        } else if w == "listening"@ {
            Some(StreamStatus::Listening)
        } else if w == "connecting"@ {
            Some(StreamStatus::Connecting)
        } else if w == "connected"@ {
            Some(StreamStatus::Connected)
        } else if w == "reconnecting"@ {
            Some(StreamStatus::Reconnecting)
        } else if w == "error"@ {
            Some(StreamStatus::Error)
        } else if w == "running"@ {
            Some(StreamStatus::Connected)
        } else {
            None
        }
    }

    /// The status that a text stands for, whatever the case of its letters.
    pub open spec fn of_text(s: Seq<char>) -> Option<StreamStatus> {
        StreamStatus::of_word(lower_text(s))
    }

    pub open spec fn connected(self) -> bool {
        self is Connected
    }

    pub open spec fn active(self) -> bool {
        self is Listening || self is Connecting || self is Connected || self is Reconnecting
    }

    /// The word for this status.
    pub fn to_string(&self) -> (r: String)
        ensures
            r@ == self.text(),
    {
        match self {
            StreamStatus::Stopped => "stopped".to_owned(),
            StreamStatus::Listening => "listening".to_owned(),
            StreamStatus::Connecting => "connecting".to_owned(),
            StreamStatus::Connected => "connected".to_owned(),
            StreamStatus::Reconnecting => "reconnecting".to_owned(),
            StreamStatus::Error => "error".to_owned(),
        }
    }

    /// Read a status; the error names the text that stands for none.
    pub fn from_str(s: &str) -> (r: Result<StreamStatus, String>)
        ensures
            match StreamStatus::of_text(s@) {
                Some(status) => r == Ok::<StreamStatus, String>(status),
                None => r matches Err(e) && e@ == "Invalid stream status: "@ + s@,
            },
    {
        let w = to_lower(s);
        let w = w.as_str();
        if text_eq(w, "stopped") {
            Ok(StreamStatus::Stopped)
        } else if text_eq(w, "listening") {
            Ok(StreamStatus::Listening)
        } else if text_eq(w, "connecting") {
            Ok(StreamStatus::Connecting)
        } else if text_eq(w, "connected") {
            Ok(StreamStatus::Connected)
        } else if text_eq(w, "reconnecting") {
            Ok(StreamStatus::Reconnecting)
        } else if text_eq(w, "error") {
            Ok(StreamStatus::Error)
        } else if text_eq(w, "running") {
            Ok(StreamStatus::Connected)
        } else {
            Err(join2("Invalid stream status: ", s))
        }
    }

    /// Whether the stream is in the state in which uptime counts.
    pub fn is_connected(&self) -> (r: bool)
        ensures
            r == self.connected(),
    {
        matches!(self, StreamStatus::Connected)
    }

    /// Whether the stream is neither stopped nor failed.
    pub fn is_active(&self) -> (r: bool)
        ensures
            r == self.active(),
    {
        match self {
            StreamStatus::Listening => true,
            StreamStatus::Connecting => true,
            StreamStatus::Connected => true,
            StreamStatus::Reconnecting => true,
            StreamStatus::Stopped => false,
            StreamStatus::Error => false,
        }
    }
}

impl std::str::FromStr for StreamStatus {
    type Err = String;

    /// Read as the inherent function of the same name does.
    fn from_str(s: &str) -> (r: Result<Self, Self::Err>)
        ensures
            match StreamStatus::of_text(s@) {
                Some(status) => r == Ok::<StreamStatus, String>(status),
                None => r matches Err(e) && e@ == "Invalid stream status: "@ + s@,
            },
    {
        StreamStatus::from_str(s)
    }
}

// ---------------------------------------------------------------- output kind

/// Kind of an output.
#[derive(Debug, Clone, Copy, PartialEq, Eq, Structural)]
pub enum OutputKind {
    Udp,
    SrtCaller,
    SrtListener,
}

impl OutputKind {
    /// The name of a kind that people read.
    pub open spec fn text(self) -> Seq<char> {
        match self {
            OutputKind::Udp => "UDP"@,
            OutputKind::SrtCaller => "SRT Caller"@,
            OutputKind::SrtListener => "SRT Listener"@,
        }
    }

    /// The name of a kind in the database.
    pub open spec fn key(self) -> Seq<char> {
        match self {
            OutputKind::Udp => "udp"@,
            OutputKind::SrtCaller => "srt_caller"@,
            OutputKind::SrtListener => "srt_listener"@,
        }
    }

    /// The name of this kind that people read.
    pub fn to_string(&self) -> (r: String)
        ensures
            r@ == self.text(),
    {
        match self {
            OutputKind::Udp => "UDP".to_owned(),
            OutputKind::SrtCaller => "SRT Caller".to_owned(),
            OutputKind::SrtListener => "SRT Listener".to_owned(),
        }
    }
}

/// The name of an output kind in the database.
pub fn output_kind_string(k: &OutputKind) -> (r: &'static str)
    ensures
        r@ == k.key(),
{
    match k {
        OutputKind::Udp => "udp",
        OutputKind::SrtCaller => "srt_caller",
        OutputKind::SrtListener => "srt_listener",
    }
}

// ---------------------------------------------------------------- analysis kind

/// Kind of an analysis of a transport stream.
#[derive(Debug, Clone, Copy, PartialEq, Eq, Hash, Structural)]
pub enum AnalysisType {
    Mux,
    Tr101,
}

impl AnalysisType {
    /// The word for an analysis kind.
    pub open spec fn text(self) -> Seq<char> {
        match self {
            AnalysisType::Mux => "mux"@,
            AnalysisType::Tr101 => "tr101"@,
        }
    }

    /// The analysis kind that a text stands for, whatever the case of its letters.
    pub open spec fn of_text(s: Seq<char>) -> Option<AnalysisType> {
        if lower_text(s) == "mux"@ {
            Some(AnalysisType::Mux)
        } else if lower_text(s) == "tr101"@ {
            Some(AnalysisType::Tr101)
        } else {
            None
        }
    }

    /// The word for this analysis kind.
    pub fn to_string(&self) -> (r: String)
        ensures
            r@ == self.text(),
    {
        match self {
            AnalysisType::Mux => "mux".to_owned(),
            AnalysisType::Tr101 => "tr101".to_owned(),
        }
    }

    /// Read an analysis kind; the error names the text that stands for none.
    pub fn from_str(s: &str) -> (r: Result<AnalysisType, String>)
        ensures
            match AnalysisType::of_text(s@) {
                Some(kind) => r == Ok::<AnalysisType, String>(kind),
                None => r matches Err(e) && e@ == "Invalid analysis type: "@ + s@,
            },
    {
        let w = to_lower(s);
        if text_eq(w.as_str(), "mux") {
            Ok(AnalysisType::Mux)
        } else if text_eq(w.as_str(), "tr101") {
            Ok(AnalysisType::Tr101)
        } else {
            Err(join2("Invalid analysis type: ", s))
        }
    }
}

impl std::str::FromStr for AnalysisType {
    type Err = String;

    /// Read as the inherent function of the same name does.
    fn from_str(s: &str) -> (r: Result<Self, Self::Err>)
        ensures
            match AnalysisType::of_text(s@) {
                Some(kind) => r == Ok::<AnalysisType, String>(kind),
                None => r matches Err(e) && e@ == "Invalid analysis type: "@ + s@,
            },
    {
        AnalysisType::from_str(s)
    }
}

// ---------------------------------------------------------------- state changes

/// Notice that a stream changed its state.
#[derive(Debug, Clone)]
pub enum StateChange {
    InputStateChanged {
        input_id: i64,
        new_status: StreamStatus,
        connected_at: Option<UnixNanos>,
        source_address: Option<String>,
    },
    OutputStateChanged {
        input_id: i64,
        output_id: i64,
        new_status: StreamStatus,
        connected_at: Option<UnixNanos>,
        peer_address: Option<String>,
    },
}

// ---------------------------------------------------------------- laws

/// Reading the word for a status gives the status back.
pub proof fn law_status_text_round_trip(s: StreamStatus)
    ensures
        StreamStatus::of_text(s.text()) == Some(s),
{
    reveal_status_words();
    let w = s.text();
    assert(is_ascii_text(w));
    assert(w.map_values(|c: char| ascii_lower(c)) =~= w);
}

/// The word `running` stands for a connected stream.
pub proof fn law_running_means_connected()
    ensures
        StreamStatus::of_text("running"@) == Some(StreamStatus::Connected),
{
    reveal_status_words();
    let w = "running"@;
    assert(is_ascii_text(w));
    assert(w.map_values(|c: char| ascii_lower(c)) =~= w);
}

/// A connected stream is active.
pub proof fn law_connected_is_active(s: StreamStatus)
    ensures
        s.connected() ==> s.active(),
{
}

/// Reading the word for an analysis kind gives the kind back.
pub proof fn law_analysis_text_round_trip(t: AnalysisType)
    ensures
        AnalysisType::of_text(t.text()) == Some(t),
{
    reveal_strlit("mux");
    reveal_strlit("tr101");
    let w = t.text();
    assert(is_ascii_text(w));
    assert(w.map_values(|c: char| ascii_lower(c)) =~= w);
    assert("mux"@.len() != "tr101"@.len());
}

/// The case of ASCII letters does not matter to what a text stands for.
pub proof fn law_status_ignores_case(a: Seq<char>, b: Seq<char>)
    requires
        is_ascii_text(a),
        is_ascii_text(b),
        a.len() == b.len(),
        forall|i: int| 0 <= i < a.len() ==> ascii_lower(#[trigger] a[i]) == ascii_lower(b[i]),
    ensures
        StreamStatus::of_text(a) == StreamStatus::of_text(b),
        AnalysisType::of_text(a) == AnalysisType::of_text(b),
{
    assert(a.map_values(|c: char| ascii_lower(c)) =~= b.map_values(|c: char| ascii_lower(c)));
}

proof fn reveal_status_words()
    ensures
        "stopped"@ =~= seq!['s', 't', 'o', 'p', 'p', 'e', 'd'],
        "listening"@ =~= seq!['l', 'i', 's', 't', 'e', 'n', 'i', 'n', 'g'],
        "connecting"@ =~= seq!['c', 'o', 'n', 'n', 'e', 'c', 't', 'i', 'n', 'g'],
        "connected"@ =~= seq!['c', 'o', 'n', 'n', 'e', 'c', 't', 'e', 'd'],
        "reconnecting"@ =~= seq!['r', 'e', 'c', 'o', 'n', 'n', 'e', 'c', 't', 'i', 'n', 'g'],
        "error"@ =~= seq!['e', 'r', 'r', 'o', 'r'],
        "running"@ =~= seq!['r', 'u', 'n', 'n', 'i', 'n', 'g'],
        "stopped"@[0] != "running"@[0],
        "listening"@[0] != "connected"@[0],
{
    reveal_strlit("stopped");
    reveal_strlit("listening");
    reveal_strlit("connecting");
    reveal_strlit("connected");
    reveal_strlit("reconnecting");
    reveal_strlit("error");
    reveal_strlit("running");
}

} // verus!
