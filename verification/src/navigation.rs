//! Browser navigation tools: their inputs and outputs, the parsing of their
//! options, and the decisions they make around a browser call.
//!
//! Each tool asks the browser to do one thing; the functions here say what is
//! asked and what the tool answers for each outcome of the browser call.
use crate::text::{chars_eq, chars_of, push_char};
use vstd::prelude::*;
use vstd::string::*;

verus! {

/// Wait condition before a navigation returns.
#[derive(Debug, Clone, Copy, PartialEq, Eq, Structural)]
pub enum WaitCondition {
    /// The `load` event fired.
    Load,
    /// The `DOMContentLoaded` event fired.
    DomContentLoaded,
    /// The network became idle.
    NetworkIdle,
}

/// Direction of a scroll.
#[derive(Debug, Clone, Copy, PartialEq, Eq, Structural)]
pub enum ScrollDirection {
    Up,
    Down,
    Left,
    Right,
}

/// Parse a `wait_for` string to a [`WaitCondition`]: `domcontentloaded` and
/// `networkidle` name their conditions, anything else (or nothing) means `Load`.
pub fn parse_wait_condition(wait_for: Option<&str>) -> (r: WaitCondition)
    ensures
        r == (match wait_for {
            Some(s) => if s@ == "domcontentloaded"@ {
                WaitCondition::DomContentLoaded
            } else if s@ == "networkidle"@ {
                WaitCondition::NetworkIdle
            } else {
                WaitCondition::Load
            },
            None => WaitCondition::Load,
        }),
{
    match wait_for {
        Some(s) => {
            let c = chars_of(s);
            if chars_eq(&c, &chars_of("domcontentloaded")) {
                WaitCondition::DomContentLoaded
            } else if chars_eq(&c, &chars_of("networkidle")) {
                WaitCondition::NetworkIdle
            } else {
                WaitCondition::Load
            }
        },
        None => WaitCondition::Load,
    }
}

/// Parse a direction string to a [`ScrollDirection`]: `up`, `left` and
/// `right` name their directions, anything else (or nothing) means `Down`.
pub fn parse_scroll_direction(direction: Option<&str>) -> (r: ScrollDirection)
    ensures
        r == (match direction {
            Some(s) => if s@ == "up"@ {
                ScrollDirection::Up
            } else if s@ == "left"@ {
                ScrollDirection::Left
            } else if s@ == "right"@ {
                ScrollDirection::Right
            } else {
                ScrollDirection::Down
            },
            None => ScrollDirection::Down,
        }),
{
    match direction {
        Some(s) => {
            let c = chars_of(s);
            if chars_eq(&c, &chars_of("up")) {
                ScrollDirection::Up
            } else if chars_eq(&c, &chars_of("left")) {
                ScrollDirection::Left
            } else if chars_eq(&c, &chars_of("right")) {
                ScrollDirection::Right
            } else {
                ScrollDirection::Down
            }
        },
        None => ScrollDirection::Down,
    }
}

// ----- navigate_to -----

/// Input parameters for the navigate_to tool.
#[derive(Debug, Clone)]
pub struct NavigateToInput {
    /// URL to navigate to.
    pub url: String,
    /// Wait condition before returning.
    pub wait_for: Option<String>,
}

/// Output of the navigate_to tool.
#[derive(Debug, Clone)]
pub struct NavigateToOutput {
    /// Whether navigation was successful.
    pub success: bool,
    /// URL that was navigated to.
    pub url: String,
    /// Error message if navigation failed.
    pub error: Option<String>,
}

/// The condition a navigate_to input asks the browser to wait for.
pub fn navigate_wait_condition(input: &NavigateToInput) -> (r: WaitCondition)
    ensures
        r == (match input.wait_for {
            Some(s) => if s@ == "domcontentloaded"@ {
                WaitCondition::DomContentLoaded
            } else if s@ == "networkidle"@ {
                WaitCondition::NetworkIdle
            } else {
                WaitCondition::Load
            },
            None => WaitCondition::Load,
        }),
{
    match &input.wait_for {
        Some(s) => parse_wait_condition(Some(s.as_str())),
        None => parse_wait_condition(None),
    }
}

/// The navigate_to answer for the browser's outcome: the URL is echoed, and a
/// failure carries the browser's message.
pub fn navigate_output(input: NavigateToInput, outcome: Result<(), String>) -> (r: NavigateToOutput)
    ensures
        r.url@ == input.url@,
        r.success == outcome is Ok,
        match outcome {
            Ok(_) => r.error is None,
            Err(m) => r.error == Some(m),
        },
{
    match outcome {
        Ok(()) => NavigateToOutput { success: true, url: input.url, error: None },
        Err(e) => NavigateToOutput { success: false, url: input.url, error: Some(e) },
    }
}

// ----- click -----

/// Input parameters for the click tool.
#[derive(Debug, Clone)]
pub struct ClickInput {
    /// CSS selector of the element to click.
    pub selector: Option<String>,
    /// Text content of the element to click.
    pub text: Option<String>,
}

/// Output of the click tool.
#[derive(Debug, Clone)]
pub struct ClickOutput {
    /// Whether click was successful.
    pub success: bool,
    /// Error message if click failed.
    pub error: Option<String>,
}

/// A click needs a selector or a text; without both the tool answers at once,
/// without calling the browser.
pub fn check_click_input(input: &ClickInput) -> (r: Option<ClickOutput>)
    ensures
        r is Some <==> (input.selector is None && input.text is None),
        r matches Some(out) ==> !out.success && (out.error matches Some(m)
            && m@ == "Either 'selector' or 'text' must be provided"@),
{
    if input.selector.is_none() && input.text.is_none() {
        return Some(
            ClickOutput {
                success: false,
                error: Some(String::from_str("Either 'selector' or 'text' must be provided")),
            },
        );
    }
    None
}

/// The click answer for the browser's outcome.
pub fn click_output(outcome: Result<(), String>) -> (r: ClickOutput)
    ensures
        r.success == outcome is Ok,
        match outcome {
            Ok(_) => r.error is None,
            Err(m) => r.error == Some(m),
        },
{
    match outcome {
        Ok(()) => ClickOutput { success: true, error: None },
        Err(e) => ClickOutput { success: false, error: Some(e) },
    }
}

// ----- type_text -----

/// Input parameters for the type_text tool.
#[derive(Debug, Clone)]
pub struct TypeTextInput {
    /// CSS selector of the input element.
    pub selector: String,
    /// Text to type.
    pub text: String,
}

/// Output of the type_text tool.
#[derive(Debug, Clone)]
pub struct TypeTextOutput {
    /// Whether typing was successful.
    pub success: bool,
    /// Error message if typing failed.
    pub error: Option<String>,
}

/// The type_text answer for the browser's outcome.
pub fn type_text_output(outcome: Result<(), String>) -> (r: TypeTextOutput)
    ensures
        r.success == outcome is Ok,
        match outcome {
            Ok(_) => r.error is None,
            Err(m) => r.error == Some(m),
        },
{
    match outcome {
        Ok(()) => TypeTextOutput { success: true, error: None },
        Err(e) => TypeTextOutput { success: false, error: Some(e) },
    }
}

// ----- scroll -----

/// Input parameters for the scroll tool.
#[derive(Debug, Clone)]
pub struct ScrollInput {
    /// Direction to scroll.
    pub direction: Option<String>,
    /// Amount to scroll in pixels.
    pub amount: Option<i32>,
}

/// Output of the scroll tool.
#[derive(Debug, Clone)]
pub struct ScrollOutput {
    /// Whether scroll was successful.
    pub success: bool,
    /// Error message if scroll failed.
    pub error: Option<String>,
}

/// The direction a scroll input asks for.
pub fn scroll_request_direction(input: &ScrollInput) -> (r: ScrollDirection)
    ensures
        r == (match input.direction {
            Some(s) => if s@ == "up"@ {
                ScrollDirection::Up
            } else if s@ == "left"@ {
                ScrollDirection::Left
            } else if s@ == "right"@ {
                ScrollDirection::Right
            } else {
                ScrollDirection::Down
            },
            None => ScrollDirection::Down,
        }),
{
    match &input.direction {
        Some(s) => parse_scroll_direction(Some(s.as_str())),
        None => parse_scroll_direction(None),
    }
}

/// The scroll answer for the browser's outcome.
pub fn scroll_output(outcome: Result<(), String>) -> (r: ScrollOutput)
    ensures
        r.success == outcome is Ok,
        match outcome {
            Ok(_) => r.error is None,
            Err(m) => r.error == Some(m),
        },
{
    match outcome {
        Ok(()) => ScrollOutput { success: true, error: None },
        Err(e) => ScrollOutput { success: false, error: Some(e) },
    }
}

// ----- wait_for -----

/// Default timeout of wait_for, in milliseconds.
pub const DEFAULT_TIMEOUT_MS: u64 = 30000;

/// Input parameters for the wait_for tool.
#[derive(Debug, Clone)]
pub struct WaitForInput {
    /// CSS selector of the element to wait for.
    pub selector: String,
    /// Timeout in milliseconds.
    pub timeout: Option<u64>,
}

/// Output of the wait_for tool.
#[derive(Debug, Clone)]
pub struct WaitForOutput {
    /// Whether the element was found.
    pub success: bool,
    /// Error message if wait timed out.
    pub error: Option<String>,
}

/// The timeout a wait_for input asks for: the given one, or 30 seconds.
pub fn wait_for_timeout(input: &WaitForInput) -> (r: u64)
    ensures
        r == (match input.timeout {
            Some(t) => t,
            None => 30000u64,
        }),
{
    match input.timeout {
        Some(t) => t,
        None => DEFAULT_TIMEOUT_MS,
    }
}

/// The wait_for answer for the browser's outcome.
pub fn wait_for_output(outcome: Result<(), String>) -> (r: WaitForOutput)
    ensures
        r.success == outcome is Ok,
        match outcome {
            Ok(_) => r.error is None,
            Err(m) => r.error == Some(m),
        },
{
    match outcome {
        Ok(()) => WaitForOutput { success: true, error: None },
        Err(e) => WaitForOutput { success: false, error: Some(e) },
    }
}

// ----- screenshot -----

/// Input parameters for the screenshot tool.
#[derive(Debug, Clone)]
pub struct ScreenshotInput {
    /// Capture the full scrollable page.
    pub full_page: Option<bool>,
    /// File path to save the screenshot.
    pub path: Option<String>,
}

/// Output of the screenshot tool.
#[derive(Debug, Clone)]
pub struct ScreenshotOutput {
    /// Whether screenshot was successful.
    pub success: bool,
    /// Base64-encoded screenshot data (if not saved to file).
    pub data: Option<String>,
    /// Path where screenshot was saved (if saved to file).
    pub path: Option<String>,
    /// Error message if screenshot failed.
    pub error: Option<String>,
}

/// Whether a screenshot input asks for the full page (no by default).
pub fn screenshot_full_page(input: &ScreenshotInput) -> (r: bool)
    ensures
        r == (match input.full_page {
            Some(b) => b,
            None => false,
        }),
{
    match input.full_page {
        Some(b) => b,
        None => false,
    }
}

/// The standard Base64 alphabet.
pub open spec fn b64_symbol(i: nat) -> char {
    if i < 26 {
        (65 + i) as char
    } else if i < 52 {
        (97 + (i - 26)) as char
    } else if i < 62 {
        (48 + (i - 52)) as char
    } else if i == 62 {
        '+'
    } else {
        '/'
    }
}

/// The Base64 encoding of one group of one to three bytes; a short group is
/// padded with `=`.
pub open spec fn b64_group(g: Seq<u8>) -> Seq<char> {
    let b0 = g[0] as nat;
    let b1 = if g.len() > 1 {
        g[1] as nat
    } else {
        0nat
    };
    let b2 = if g.len() > 2 {
        g[2] as nat
    } else {
        0nat
    };
    seq![
        b64_symbol(b0 / 4),
        b64_symbol((b0 % 4) * 16 + b1 / 16),
        if g.len() > 1 {
            b64_symbol((b1 % 16) * 4 + b2 / 64)
        } else {
            '='
        },
        if g.len() > 2 {
            b64_symbol(b2 % 64)
        } else {
            '='
        },
    ]
}

/// Standard padded Base64 of a byte sequence, three bytes at a time.
pub open spec fn base64(data: Seq<u8>) -> Seq<char>
    decreases data.len(),
{
    if data.len() == 0 {
        seq![]
    } else if data.len() <= 3 {
        b64_group(data)
    } else {
        b64_group(data.take(3)) + base64(data.skip(3))
    }
}

fn b64_char(i: u8) -> (c: char)
    requires
        i < 64,
    ensures
        c == b64_symbol(i as nat),
{
    if i < 26 {
        (65 + i) as char
    } else if i < 52 {
        (97 + (i - 26)) as char
    } else if i < 62 {
        (48 + (i - 52)) as char
    } else if i == 62 {
        '+'
    } else {
        '/'
    }
}

/// Standard padded Base64 encoding of `data`.
pub fn base64_encode(data: &[u8]) -> (r: String)
    ensures
        r@ == base64(data@),
{
    let mut out = String::new();
    let mut i: usize = 0;
    assert(data@.skip(0) =~= data@);
    while i < data.len()
        invariant
            i <= data.len(),
            base64(data@) == out@ + base64(data@.skip(i as int)),
        decreases data.len() - i,
    {
        let ghost rest = data@.skip(i as int);
        let ghost before = out@;
        let n = data.len() - i;
        let b0 = data[i];
        let b1: u8 = if n > 1 {
            data[i + 1]
        } else {
            0
        };
        let b2: u8 = if n > 2 {
            data[i + 2]
        } else {
            0
        };
        push_char(&mut out, b64_char(b0 / 4));
        push_char(&mut out, b64_char((b0 % 4) * 16 + b1 / 16));
        if n > 1 {
            push_char(&mut out, b64_char((b1 % 16) * 4 + b2 / 64));
        } else {
            push_char(&mut out, '=');
        }
        if n > 2 {
            push_char(&mut out, b64_char(b2 % 64));
        } else {
            push_char(&mut out, '=');
        }
        proof {
            let g = if rest.len() <= 3 {
                rest
            } else {
                rest.take(3)
            };
            assert(g[0] == b0);
            assert(g.len() > 1 ==> g[1] == b1);
            assert(g.len() > 2 ==> g[2] == b2);
            assert(out@ =~= before + b64_group(g));
            if rest.len() > 3 {
                assert(rest.skip(3) =~= data@.skip(i + 3));
            } else {
                assert(data@.skip(data.len() as int) =~= Seq::<u8>::empty());
            }
        }
        i = if n > 3 {
            i + 3
        } else {
            data.len()
        };
    }
    assert(data@.skip(data.len() as int) =~= Seq::<u8>::empty());
    out
}

/// The screenshot answer for the browser's outcome: with a path the image was
/// saved there; without one the image comes back Base64-encoded.
pub fn screenshot_output(path: Option<String>, outcome: Result<Vec<u8>, String>) -> (r:
    ScreenshotOutput)
    ensures
        r.success == outcome is Ok,
        match outcome {
            Ok(bytes) => r.error is None && if path is Some {
                r.path == path && r.data is None
            } else {
                r.path is None && (r.data matches Some(d) && d@ == base64(bytes@))
            },
            Err(m) => r.error == Some(m) && r.data is None && r.path is None,
        },
{
    match outcome {
        Ok(data) => {
            if path.is_some() {
                ScreenshotOutput { success: true, data: None, path, error: None }
            } else {
                ScreenshotOutput {
                    success: true,
                    data: Some(base64_encode(data.as_slice())),
                    path: None,
                    error: None,
                }
            }
        },
        Err(e) => ScreenshotOutput { success: false, data: None, path: None, error: Some(e) },
    }
}

/// Every four symbols of Base64 stand for three bytes: the encoding of `n`
/// bytes has `4 * ceil(n / 3)` symbols.
pub proof fn law_base64_length(data: Seq<u8>)
    ensures
        base64(data).len() == 4 * ((data.len() + 2) / 3),
    decreases data.len(),
{
    if data.len() > 3 {
        law_base64_length(data.skip(3));
    }
}

/// The Base64 alphabet: symbol 62 is `+`, symbol 63 is `/`, and its 64
/// symbols are pairwise distinct, so no two 6-bit values are written alike.
pub proof fn law_b64_alphabet(i: nat, j: nat)
    requires
        i < 64,
        j < 64,
        i != j,
    ensures
        b64_symbol(i) != b64_symbol(j),
        b64_symbol(62) == '+',
        b64_symbol(63) == '/',
{
    assert(b64_symbol(i) as int == (if i < 26 {
        (65 + i) as int
    } else if i < 52 {
        (97 + (i - 26)) as int
    } else if i < 62 {
        (48 + (i - 52)) as int
    } else if i == 62 {
        43int
    } else {
        47int
    }));
    assert(b64_symbol(j) as int == (if j < 26 {
        (65 + j) as int
    } else if j < 52 {
        (97 + (j - 26)) as int
    } else if j < 62 {
        (48 + (j - 52)) as int
    } else if j == 62 {
        43int
    } else {
        47int
    }));
}

proof fn lemma_symbol_injective(i: nat, j: nat)
    requires
        i < 64,
        j < 64,
        b64_symbol(i) == b64_symbol(j),
    ensures
        i == j,
{
    if i != j {
        law_b64_alphabet(i, j);
    }
}

proof fn lemma_group_injective(g: Seq<u8>, h: Seq<u8>)
    requires
        1 <= g.len() <= 3,
        g.len() == h.len(),
        b64_group(g) == b64_group(h),
    ensures
        g == h,
{
    let a0 = g[0] as nat;
    let a1 = if g.len() > 1 { g[1] as nat } else { 0nat };
    let a2 = if g.len() > 2 { g[2] as nat } else { 0nat };
    let c0 = h[0] as nat;
    let c1 = if h.len() > 1 { h[1] as nat } else { 0nat };
    let c2 = if h.len() > 2 { h[2] as nat } else { 0nat };
    assert(b64_group(g)[0] == b64_group(h)[0]);
    assert(b64_group(g)[1] == b64_group(h)[1]);
    assert(a0 / 4 < 64 && c0 / 4 < 64);
    lemma_symbol_injective(a0 / 4, c0 / 4);
    assert((a0 % 4) * 16 + a1 / 16 < 64 && (c0 % 4) * 16 + c1 / 16 < 64);
    lemma_symbol_injective((a0 % 4) * 16 + a1 / 16, (c0 % 4) * 16 + c1 / 16);
    assert(a0 % 4 == c0 % 4 && a1 / 16 == c1 / 16);
    assert(a0 == c0);
    if g.len() > 1 {
        assert(b64_group(g)[2] == b64_group(h)[2]);
        assert((a1 % 16) * 4 + a2 / 64 < 64 && (c1 % 16) * 4 + c2 / 64 < 64);
        lemma_symbol_injective((a1 % 16) * 4 + a2 / 64, (c1 % 16) * 4 + c2 / 64);
        assert(a1 % 16 == c1 % 16 && a2 / 64 == c2 / 64);
        assert(a1 == c1);
        assert(g[1] == h[1]);
    }
    if g.len() > 2 {
        assert(b64_group(g)[3] == b64_group(h)[3]);
        lemma_symbol_injective(a2 % 64, c2 % 64);
        assert(a2 == c2);
        assert(g[2] == h[2]);
    }
    assert(g[0] == h[0]);
    assert(g =~= h);
}

/// Base64 decodes back: two byte sequences of the same length with the same
/// encoding are the same bytes.
pub proof fn law_base64_injective(a: Seq<u8>, b: Seq<u8>)
    requires
        a.len() == b.len(),
        base64(a) == base64(b),
    ensures
        a == b,
    decreases a.len(),
{
    if a.len() == 0 {
        assert(a =~= b);
    } else if a.len() <= 3 {
        lemma_group_injective(a, b);
    } else {
        let ga = b64_group(a.take(3));
        let gb = b64_group(b.take(3));
        assert(base64(a) == ga + base64(a.skip(3)));
        assert(base64(b) == gb + base64(b.skip(3)));
        assert(ga.len() == 4 && gb.len() == 4);
        assert(ga =~= base64(a).subrange(0, 4));
        assert(gb =~= base64(b).subrange(0, 4));
        assert(base64(a.skip(3)) =~= base64(a).subrange(4, base64(a).len() as int));
        assert(base64(b.skip(3)) =~= base64(b).subrange(4, base64(b).len() as int));
        lemma_group_injective(a.take(3), b.take(3));
        law_base64_injective(a.skip(3), b.skip(3));
        assert(a =~= a.take(3) + a.skip(3));
        assert(b =~= b.take(3) + b.skip(3));
    }
}

} // verus!
