//! The data that crosses the core ports: errors with their messages, and the
//! options and results of browser control, browser driving, automation and
//! session persistence.
use vstd::prelude::*;
use vstd::string::*;

verus! {

/// Errors that can occur during automation operations.
#[derive(Debug, Clone)]
pub enum AutomationError {
    RecordingFailed(String),
    PlaybackFailed(String),
    MacroNotFound(String),
    InvalidAction(String),
    AlreadyRecording,
    NotRecording,
}

/// The message of an automation error.
pub open spec fn automation_error_text(e: AutomationError) -> Seq<char> {
    match e {
        AutomationError::RecordingFailed(m) => "recording failed: "@ + m@,
        AutomationError::PlaybackFailed(m) => "playback failed: "@ + m@,
        AutomationError::MacroNotFound(m) => "macro not found: "@ + m@,
        AutomationError::InvalidAction(m) => "invalid action: "@ + m@,
        AutomationError::AlreadyRecording => "already recording"@,
        AutomationError::NotRecording => "not recording"@,
    }
}

impl AutomationError {
    /// The error's message.
    pub fn to_string(&self) -> (r: String)
        ensures
            r@ == automation_error_text(*self),
    {
        match self {
            AutomationError::RecordingFailed(m) => String::from_str("recording failed: ").concat(
                m.as_str(),
            ),
            AutomationError::PlaybackFailed(m) => String::from_str("playback failed: ").concat(
                m.as_str(),
            ),
            AutomationError::MacroNotFound(m) => String::from_str("macro not found: ").concat(
                m.as_str(),
            ),
            AutomationError::InvalidAction(m) => String::from_str("invalid action: ").concat(
                m.as_str(),
            ),
            AutomationError::AlreadyRecording => String::from_str("already recording"),
            AutomationError::NotRecording => String::from_str("not recording"),
        }
    }
}

/// Options for recording a macro.
#[derive(Debug, Clone)]
pub struct RecordOptions {
    /// Name for the macro.
    pub name: String,
    /// Optional description.
    pub description: Option<String>,
}

impl Default for RecordOptions {
    fn default() -> (r: Self)
        ensures
            r.name@ == Seq::<char>::empty(),
            r.description is None,
    {
        RecordOptions { name: String::new(), description: None }
    }
}

/// Result of macro playback.
#[derive(Debug, Clone)]
pub struct PlaybackResult {
    /// Whether playback completed successfully.
    pub success: bool,
    /// Number of actions executed.
    pub actions_executed: usize,
    /// Error message if playback failed.
    pub error: Option<String>,
    /// Duration of playback in milliseconds.
    pub duration_ms: u64,
}

/// Errors that can occur during browser control operations.
#[derive(Debug, Clone)]
pub enum BrowserControlError {
    NavigationFailed(String),
    ElementNotFound(String),
    ClickFailed(String),
    TypeFailed(String),
    ScreenshotFailed(String),
    Timeout(String),
    NotConnected,
}

/// The message of a browser control error.
pub open spec fn browser_control_error_text(e: BrowserControlError) -> Seq<char> {
    match e {
        BrowserControlError::NavigationFailed(m) => "navigation failed: "@ + m@,
        BrowserControlError::ElementNotFound(m) => "element not found: "@ + m@,
        BrowserControlError::ClickFailed(m) => "click failed: "@ + m@,
        BrowserControlError::TypeFailed(m) => "type failed: "@ + m@,
        BrowserControlError::ScreenshotFailed(m) => "screenshot failed: "@ + m@,
        BrowserControlError::Timeout(m) => "timeout: "@ + m@,
        BrowserControlError::NotConnected => "browser not connected"@,
    }
}

impl BrowserControlError {
    /// The error's message.
    pub fn to_string(&self) -> (r: String)
        ensures
            r@ == browser_control_error_text(*self),
    {
        match self {
            BrowserControlError::NavigationFailed(m) => String::from_str(
                "navigation failed: ",
            ).concat(m.as_str()),
            BrowserControlError::ElementNotFound(m) => String::from_str(
                "element not found: ",
            ).concat(m.as_str()),
            BrowserControlError::ClickFailed(m) => String::from_str("click failed: ").concat(
                m.as_str(),
            ),
            BrowserControlError::TypeFailed(m) => String::from_str("type failed: ").concat(
                m.as_str(),
            ),
            BrowserControlError::ScreenshotFailed(m) => String::from_str(
                "screenshot failed: ",
            ).concat(m.as_str()),
            BrowserControlError::Timeout(m) => String::from_str("timeout: ").concat(m.as_str()),
            BrowserControlError::NotConnected => String::from_str("browser not connected"),
        }
    }
}

/// Screenshot data with format information.
#[derive(Debug, Clone)]
pub struct Screenshot {
    /// Raw image data (PNG format).
    pub data: Vec<u8>,
    /// Width in pixels.
    pub width: u32,
    /// Height in pixels.
    pub height: u32,
}

/// Options for taking screenshots.
#[derive(Debug, Clone)]
pub struct ScreenshotOptions {
    /// Capture the full page (scroll capture).
    pub full_page: bool,
    /// Specific element selector to capture.
    pub selector: Option<String>,
}

impl Default for ScreenshotOptions {
    fn default() -> (r: Self)
        ensures
            !r.full_page,
            r.selector is None,
    {
        ScreenshotOptions { full_page: false, selector: None }
    }
}

/// Options for navigation.
#[derive(Debug, Clone, Copy, PartialEq, Eq, Structural)]
pub struct NavigateOptions {
    /// Wait for network idle before returning.
    pub wait_for_network_idle: bool,
    /// Timeout in milliseconds.
    pub timeout_ms: Option<u64>,
}

impl Default for NavigateOptions {
    fn default() -> (r: Self)
        ensures
            r == (NavigateOptions { wait_for_network_idle: false, timeout_ms: None }),
    {
        NavigateOptions { wait_for_network_idle: false, timeout_ms: None }
    }
}

/// Errors that can occur during browser driver operations.
#[derive(Debug, Clone)]
pub enum BrowserDriverError {
    ConnectionFailed(String),
    NavigationFailed(String),
    ElementNotFound(String),
    ExecutionFailed(String),
    ScreenshotFailed(String),
    Timeout(String),
    BrowserClosed,
}

/// The message of a browser driver error.
pub open spec fn browser_driver_error_text(e: BrowserDriverError) -> Seq<char> {
    match e {
        BrowserDriverError::ConnectionFailed(m) => "connection failed: "@ + m@,
        BrowserDriverError::NavigationFailed(m) => "navigation failed: "@ + m@,
        BrowserDriverError::ElementNotFound(m) => "element not found: "@ + m@,
        BrowserDriverError::ExecutionFailed(m) => "execution failed: "@ + m@,
        BrowserDriverError::ScreenshotFailed(m) => "screenshot failed: "@ + m@,
        BrowserDriverError::Timeout(m) => "timeout: "@ + m@,
        BrowserDriverError::BrowserClosed => "browser closed"@,
    }
}

impl BrowserDriverError {
    /// The error's message.
    pub fn to_string(&self) -> (r: String)
        ensures
            r@ == browser_driver_error_text(*self),
    {
        match self {
            BrowserDriverError::ConnectionFailed(m) => String::from_str(
                "connection failed: ",
            ).concat(m.as_str()),
            BrowserDriverError::NavigationFailed(m) => String::from_str(
                "navigation failed: ",
            ).concat(m.as_str()),
            BrowserDriverError::ElementNotFound(m) => String::from_str(
                "element not found: ",
            ).concat(m.as_str()),
            BrowserDriverError::ExecutionFailed(m) => String::from_str(
                "execution failed: ",
            ).concat(m.as_str()),
            BrowserDriverError::ScreenshotFailed(m) => String::from_str(
                "screenshot failed: ",
            ).concat(m.as_str()),
            BrowserDriverError::Timeout(m) => String::from_str("timeout: ").concat(m.as_str()),
            BrowserDriverError::BrowserClosed => String::from_str("browser closed"),
        }
    }
}

/// Browser viewport dimensions.
#[derive(Debug, Clone, Copy, PartialEq, Eq, Structural)]
pub struct Viewport {
    pub width: u32,
    pub height: u32,
}

/// Options for launching a browser instance.
#[derive(Debug, Clone)]
pub struct LaunchOptions {
    /// Run browser in headless mode.
    pub headless: bool,
    /// Path to browser executable.
    pub executable_path: Option<String>,
    /// User data directory for profiles.
    pub user_data_dir: Option<String>,
    /// Initial viewport size.
    pub viewport: Option<Viewport>,
}

impl Default for LaunchOptions {
    /// Headless, with the browser's own executable and profile, and a
    /// 1280 by 720 viewport.
    fn default() -> (r: Self)
        ensures
            r.headless,
            r.executable_path is None,
            r.user_data_dir is None,
            r.viewport == Some(Viewport { width: 1280, height: 720 }),
    {
        LaunchOptions {
            headless: true,
            executable_path: None,
            user_data_dir: None,
            viewport: Some(Viewport { width: 1280, height: 720 }),
        }
    }
}

/// Options for waiting operations.
#[derive(Debug, Clone, Copy, PartialEq, Eq, Structural)]
pub struct WaitOptions {
    /// Timeout in milliseconds.
    pub timeout_ms: Option<u64>,
    /// Polling interval in milliseconds.
    pub poll_interval_ms: Option<u64>,
}

impl Default for WaitOptions {
    fn default() -> (r: Self)
        ensures
            r == (WaitOptions { timeout_ms: None, poll_interval_ms: None }),
    {
        WaitOptions { timeout_ms: None, poll_interval_ms: None }
    }
}

/// Errors that can occur during session persistence operations.
#[derive(Debug, Clone)]
pub enum SessionPersistenceError {
    LoadFailed(String),
    SaveFailed(String),
    SessionNotFound(String),
    EncryptionFailed(String),
    DecryptionFailed(String),
}

/// The message of a session persistence error.
pub open spec fn session_persistence_error_text(e: SessionPersistenceError) -> Seq<char> {
    match e {
        SessionPersistenceError::LoadFailed(m) => "load failed: "@ + m@,
        SessionPersistenceError::SaveFailed(m) => "save failed: "@ + m@,
        SessionPersistenceError::SessionNotFound(m) => "session not found: "@ + m@,
        SessionPersistenceError::EncryptionFailed(m) => "encryption failed: "@ + m@,
        SessionPersistenceError::DecryptionFailed(m) => "decryption failed: "@ + m@,
    }
}

impl SessionPersistenceError {
    /// The error's message.
    pub fn to_string(&self) -> (r: String)
        ensures
            r@ == session_persistence_error_text(*self),
    {
        match self {
            SessionPersistenceError::LoadFailed(m) => String::from_str("load failed: ").concat(
                m.as_str(),
            ),
            SessionPersistenceError::SaveFailed(m) => String::from_str("save failed: ").concat(
                m.as_str(),
            ),
            SessionPersistenceError::SessionNotFound(m) => String::from_str(
                "session not found: ",
            ).concat(m.as_str()),
            SessionPersistenceError::EncryptionFailed(m) => String::from_str(
                "encryption failed: ",
            ).concat(m.as_str()),
            SessionPersistenceError::DecryptionFailed(m) => String::from_str(
                "decryption failed: ",
            ).concat(m.as_str()),
        }
    }
}

/// SameSite cookie attribute.
#[derive(Debug, Clone, Copy, PartialEq, Eq, Structural)]
pub enum SameSite {
    Strict,
    Lax,
    /// The attribute's value `None`: the cookie is sent with cross-site
    /// requests too.
    Unrestricted,
}

/// Local storage entry.
#[derive(Debug, Clone)]
pub struct LocalStorageEntry {
    /// Storage key.
    pub key: String,
    /// Storage value.
    pub value: String,
}

} // verus!
