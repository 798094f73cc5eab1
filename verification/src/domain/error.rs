use vstd::prelude::*;

verus! {

/// Errors of the player's domain, each with its message.
#[derive(Debug)]
pub enum DomainError {
    YtDlp(String),
    Network(String),
    Io(String),
    Parse(String),
    Audio(String),
    Player(String),
    Other(String),
}

impl DomainError {
    /// The prefix the error's message is shown with.
    pub open spec fn spec_prefix(&self) -> Seq<char> {
        match self {
            DomainError::YtDlp(_) => "yt-dlp error: "@,
            DomainError::Network(_) => "Network error: "@,
            DomainError::Io(_) => "IO error: "@,
            DomainError::Parse(_) => "Parse error: "@,
            DomainError::Audio(_) => "Audio error: "@,
            DomainError::Player(_) => "Player error: "@,
            DomainError::Other(_) => ""@,
        }
    }

    pub open spec fn spec_detail(&self) -> Seq<char> {
        match self {
            DomainError::YtDlp(m) => m@,
            DomainError::Network(m) => m@,
            DomainError::Io(m) => m@,
            DomainError::Parse(m) => m@,
            DomainError::Audio(m) => m@,
            DomainError::Player(m) => m@,
            DomainError::Other(m) => m@,
        }
    }

    /// The text the error is displayed with: its kind's prefix, then the detail.
    pub fn message(&self) -> (s: String)
        ensures
            s@ == self.spec_prefix() + self.spec_detail(),
    {
        let (prefix, detail): (&str, &String) = match self {
            DomainError::YtDlp(m) => ("yt-dlp error: ", m),
            DomainError::Network(m) => ("Network error: ", m),
            DomainError::Io(m) => ("IO error: ", m),
            DomainError::Parse(m) => ("Parse error: ", m),
            DomainError::Audio(m) => ("Audio error: ", m),
            DomainError::Player(m) => ("Player error: ", m),
            DomainError::Other(m) => ("", m),
        };
        let mut s = crate::text::owned(prefix);
        s.append(detail.as_str());
        s
    }
}

} // verus!
