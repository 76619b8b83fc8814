//! Identities and errors of the windows, selection and display watchers.

use vstd::prelude::*;

verus! {

/// A running app, by process id.
#[derive(Clone, Copy, PartialEq, Eq, Structural, Hash, Debug)]
pub struct Pid(pub i32);

/// A window's `CGWindowID`. Outlives any one Accessibility element naming it.
#[derive(Clone, Copy, PartialEq, Eq, Structural, Hash, Debug)]
pub struct WindowId(pub u32);

/// Placing a window failed.
#[derive(Clone, Copy, PartialEq, Eq, Structural, Debug)]
pub enum WindowError {
    /// `watch` was called off the main thread.
    NotMainThread,
    /// The Accessibility permission has not been granted.
    NotTrusted,
    /// The watcher has been dropped.
    NotWatching,
}

impl WindowError {
    pub open spec fn readable(self) -> Seq<char> {
        match self {
            WindowError::NotMainThread => "freddie_windows::watch must run on the main thread"@,
            WindowError::NotTrusted => "Accessibility is not granted"@,
            WindowError::NotWatching => "not watching windows"@,
        }
    }

    /// What the error says to a person.
    pub fn message(&self) -> (r: &'static str)
        ensures
            r@ == self.readable(),
    {
        match self {
            WindowError::NotMainThread => "freddie_windows::watch must run on the main thread",
            WindowError::NotTrusted => "Accessibility is not granted",
            WindowError::NotWatching => "not watching windows",
        }
    }
}

/// An app whose windows a user could be looking at: not a UI service whose activation policy
/// is `Prohibited`.
#[derive(Clone, Copy, Debug)]
pub struct ObservableApp(pub Pid);

/// What an app's focused element said when asked for its selected text.
#[derive(Clone, PartialEq, Eq, Debug)]
pub enum Selection {
    /// The selected text as the app reports it. Never empty: an empty answer is `Empty`.
    Text(String),
    /// The element answers, and nothing is selected.
    Empty,
    /// No focused element, or the focused element does not expose its selection.
    Unsupported,
}

/// What the focused element's selected text reads as: no readable string is `Unsupported`, an
/// empty one is `Empty`, and any other is the text itself.
pub fn selection_of(text: Option<String>) -> (r: Selection)
    ensures
        match text {
            None => r == Selection::Unsupported,
            Some(t) => if t@.len() == 0 {
                r == Selection::Empty
            } else {
                r == Selection::Text(t)
            },
        },
{
    match text {
        Some(t) => if t.as_str().is_empty() {
            Selection::Empty
        } else {
            Selection::Text(t)
        },
        None => Selection::Unsupported,
    }
}

/// Facts from the selection watcher. The consumer requests the value as a read effect.
#[derive(Clone, Copy, PartialEq, Eq, Structural, Debug)]
pub enum SelectionChange {
    /// This app's selection changed (or its focus moved).
    Changed(Pid),
    /// The app is gone: remove the entry.
    AppGone(Pid),
}

/// A display present according to macOS.
#[derive(Clone, PartialEq, Eq, Debug)]
pub struct Display {
    /// `CGDirectDisplayID`, stable for the life of the connection.
    pub id: DisplayId,
    /// The laptop's own panel.
    pub builtin: bool,
    /// `NSScreen.localizedName`.
    pub name: String,
}

/// A display's id for correlation within a connection session.
#[derive(Clone, Copy, PartialEq, Eq, Structural, Hash, Debug)]
pub struct DisplayId(pub u32);

/// Registry entry id of the HID service an event came from. A replug yields a new one.
#[derive(Clone, Copy, PartialEq, Eq, Structural, Hash, Debug)]
pub struct SourceId(pub u64);

/// The source an event's HID sender id names: none for sender zero, which an injected event
/// carries.
pub fn source_from_sender(sender: u64) -> (r: Option<SourceId>)
    ensures
        r == (if sender == 0 {
            None
        } else {
            Some(SourceId(sender))
        }),
{
    if sender == 0 {
        None
    } else {
        Some(SourceId(sender))
    }
}

/// Resolved identity of a source.
#[derive(Clone, Debug)]
pub struct DeviceInfo {
    pub vendor_id: u16,
    pub product_id: u16,
    pub product: String,
    pub built_in: bool,
}

/// A 16-bit registry number: the property when it is there and fits, else zero.
pub open spec fn id_property(property: Option<u32>) -> u16 {
    match property {
        Some(v) => if v <= u16::MAX {
            v as u16
        } else {
            0
        },
        None => 0,
    }
}

impl DeviceInfo {
    /// The identity from the service's registry properties. A missing or out-of-range id reads
    /// as zero, a missing name as empty, and a missing built-in flag as not built in.
    pub fn from_properties(
        vendor_id: Option<u32>,
        product_id: Option<u32>,
        product: Option<String>,
        built_in: Option<bool>,
    ) -> (r: DeviceInfo)
        ensures
            r.vendor_id == id_property(vendor_id),
            r.product_id == id_property(product_id),
            r.product@ == (match product {
                Some(name) => name@,
                None => Seq::<char>::empty(),
            }),
            r.built_in == (built_in == Some(true)),
    {
        DeviceInfo {
            vendor_id: narrow_id(vendor_id),
            product_id: narrow_id(product_id),
            product: match product {
                Some(name) => name,
                None => String::new(),
            },
            built_in: match built_in {
                Some(b) => b,
                None => false,
            },
        }
    }
}

fn narrow_id(property: Option<u32>) -> (r: u16)
    ensures
        r == id_property(property),
{
    match property {
        Some(v) => if v <= 0xffff {
            v as u16
        } else {
            0
        },
        None => 0,
    }
}

/// Why a known [`SourceId`] could not be resolved.
#[derive(Clone, Copy, PartialEq, Eq, Structural, Hash, Debug)]
pub enum ResolveFailure {
    /// No service matches the id.
    NoMatchingService,
}

/// The frontmost app as macOS reports it. An app with no bundle identifier is not reported.
#[derive(Clone, PartialEq, Eq, Debug)]
pub struct FrontmostApp {
    pub bundle_id: String,
    pub pid: Pid,
}

/// How a status-item PNG is drawn: a monochrome template glyph, or in its own colors.
#[derive(Clone, Copy)]
pub enum IconKind<'a> {
    Template(&'a [u8]),
    Color(&'a [u8]),
}

/// The arguments `open` takes to bring the app with this bundle identifier to the front.
pub fn open_args(bundle_id: &str) -> (r: [&str; 2])
    ensures
        r@[0]@ == "-b"@,
        r@[1] == bundle_id,
{
    ["-b", bundle_id]
}

} // verus!
