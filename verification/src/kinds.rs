//! The closed enumerations that a message carries as 8-bit codes.

use vstd::prelude::*;

verus! {

/// The tag that tells the three payload kinds apart.
#[derive(Clone, Copy, Debug, PartialEq, Eq, Structural)]
pub enum MessageKind {
    PageChange,
    PlaybackChange,
    SongChange,
}

impl MessageKind {
    /// The 8-bit code of the kind.
    pub open spec fn code_spec(self) -> u8 {
        match self {
            MessageKind::PageChange => 0,
            MessageKind::PlaybackChange => 1,
            MessageKind::SongChange => 2,
        }
    }

    /// The kind that a code stands for, if any.
    pub open spec fn from_code_spec(code: u8) -> Option<MessageKind> {
        if code == 0 {
            Some(MessageKind::PageChange)
        } else if code == 1 {
            Some(MessageKind::PlaybackChange)
        } else if code == 2 {
            Some(MessageKind::SongChange)
        } else {
            None
        }
    }

    /// The 8-bit code of the kind.
    pub fn code(self) -> (code: u8)
        ensures
            code == self.code_spec(),
    {
        match self {
            MessageKind::PageChange => 0,
            MessageKind::PlaybackChange => 1,
            MessageKind::SongChange => 2,
        }
    }

    /// The kind that `code` stands for; `None` for a code outside the closed set.
    pub fn from_code(code: u8) -> (kind: Option<MessageKind>)
        ensures
            kind == Self::from_code_spec(code),
    {
        if code == 0 {
            Some(MessageKind::PageChange)
        } else if code == 1 {
            Some(MessageKind::PlaybackChange)
        } else if code == 2 {
            Some(MessageKind::SongChange)
        } else {
            None
        }
    }

    /// A code names a kind exactly when it is the code of that kind, and the
    /// codes of the closed set are 0, 1 and 2.
    pub proof fn codes_are_exact(code: u8, kind: MessageKind)
        ensures
            Self::from_code_spec(code) == Some(kind) <==> kind.code_spec() == code,
            Self::from_code_spec(code) is None <==> code > 2,
    {
    }
}

/// A page of the user interface.
#[derive(Clone, Copy, Debug, PartialEq, Eq, Structural)]
pub enum PageId {
    Home,
    Player,
    Settings,
    Library,
}

impl PageId {
    /// The 8-bit code of the page.
    pub open spec fn code_spec(self) -> u8 {
        match self {
            PageId::Home => 0,
            PageId::Player => 1,
            PageId::Settings => 2,
            PageId::Library => 3,
        }
    }

    /// The page that a code stands for, if any.
    pub open spec fn from_code_spec(code: u8) -> Option<PageId> {
        if code == 0 {
            Some(PageId::Home)
        } else if code == 1 {
            Some(PageId::Player)
        } else if code == 2 {
            Some(PageId::Settings)
        } else if code == 3 {
            Some(PageId::Library)
        } else {
            None
        }
    }

    /// The 8-bit code of the page.
    pub fn code(self) -> (code: u8)
        ensures
            code == self.code_spec(),
    {
        match self {
            PageId::Home => 0,
            PageId::Player => 1,
            PageId::Settings => 2,
            PageId::Library => 3,
        }
    }

    /// The page that `code` stands for; `None` for a code outside the closed set.
    pub fn from_code(code: u8) -> (page: Option<PageId>)
        ensures
            page == Self::from_code_spec(code),
    {
        if code == 0 {
            Some(PageId::Home)
        } else if code == 1 {
            Some(PageId::Player)
        } else if code == 2 {
            Some(PageId::Settings)
        } else if code == 3 {
            Some(PageId::Library)
        } else {
            None
        }
    }

    /// A code names a page exactly when it is the code of that page, and the
    /// codes of the closed set are 0 to 3.
    pub proof fn codes_are_exact(code: u8, page: PageId)
        ensures
            Self::from_code_spec(code) == Some(page) <==> page.code_spec() == code,
            Self::from_code_spec(code) is None <==> code > 3,
    {
    }
}

/// Where the audio that is played comes from.
#[derive(Clone, Copy, Debug, PartialEq, Eq, Structural)]
pub enum PlaybackSource {
    Radio,
    Bluetooth,
    Library,
}

impl PlaybackSource {
    /// The 8-bit code of the source.
    pub open spec fn code_spec(self) -> u8 {
        match self {
            PlaybackSource::Radio => 0,
            PlaybackSource::Bluetooth => 1,
            PlaybackSource::Library => 2,
        }
    }

    /// The source that a code stands for, if any.
    pub open spec fn from_code_spec(code: u8) -> Option<PlaybackSource> {
        if code == 0 {
            Some(PlaybackSource::Radio)
        } else if code == 1 {
            Some(PlaybackSource::Bluetooth)
        } else if code == 2 {
            Some(PlaybackSource::Library)
        } else {
            None
        }
    }

    /// The 8-bit code of the source.
    pub fn code(self) -> (code: u8)
        ensures
            code == self.code_spec(),
    {
        match self {
            PlaybackSource::Radio => 0,
            PlaybackSource::Bluetooth => 1,
            PlaybackSource::Library => 2,
        }
    }

    /// The source that `code` stands for; `None` for a code outside the closed set.
    pub fn from_code(code: u8) -> (source: Option<PlaybackSource>)
        ensures
            source == Self::from_code_spec(code),
    {
        if code == 0 {
            Some(PlaybackSource::Radio)
        } else if code == 1 {
            Some(PlaybackSource::Bluetooth)
        } else if code == 2 {
            Some(PlaybackSource::Library)
        } else {
            None
        }
    }

    /// A code names a source exactly when it is the code of that source, and
    /// the codes of the closed set are 0, 1 and 2.
    pub proof fn codes_are_exact(code: u8, source: PlaybackSource)
        ensures
            Self::from_code_spec(code) == Some(source) <==> source.code_spec() == code,
            Self::from_code_spec(code) is None <==> code > 2,
    {
    }
}

} // verus!
