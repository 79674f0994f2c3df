//! Discovery of the driver's optional capabilities.
//!
//! The driver reports its capabilities as one string of names separated by
//! single spaces. Three of them matter here; each comes with a fixed set of
//! entry points that the caller resolves and hands over as addresses. An
//! address of zero is what the resolver returns for a symbol it does not have.

use vstd::prelude::*;

verus! {

/// The byte that separates two names in an extension string.
pub const SEPARATOR: u8 = 0x20;

/// The bytes of an ASCII text.
pub open spec fn ascii_bytes(text: Seq<char>) -> Seq<u8> {
    Seq::new(text.len(), |i: int| text[i] as u8)
}

/// `s[from..to]` is one whole name of `s`: it holds no separator and is
/// bounded on each side by a separator or by the end of the string.
pub open spec fn is_token(s: Seq<u8>, from: int, to: int) -> bool {
    &&& 0 <= from <= to <= s.len()
    &&& (from == 0 || s[from - 1] == SEPARATOR)
    &&& (to == s.len() || s[to] == SEPARATOR)
    &&& forall|k: int| from <= k < to ==> s[k] != SEPARATOR
}

/// The extension string `s` lists `name`.
pub open spec fn lists(s: Seq<u8>, name: Seq<u8>) -> bool {
    exists|from: int, to: int| #[trigger] is_token(s, from, to) && s.subrange(from, to) == name
}

/// An optional capability that the lifecycle manager can use.
#[derive(Clone, Copy, Debug, PartialEq, Eq, Structural)]
pub enum WGLExtension {
    /// Extended pixel-format enumeration.
    PixelFormat,
    /// Context creation with requested version and profile.
    CreateContext,
    /// Sharing of Direct3D resources.
    DXInterop,
}

impl WGLExtension {
    /// The name under which the driver lists the capability.
    pub open spec fn name_spec(self) -> Seq<char> {
        match self {
            WGLExtension::PixelFormat => "WGL_ARB_pixel_format"@,
            WGLExtension::CreateContext => "WGL_ARB_create_context"@,
            WGLExtension::DXInterop => "WGL_NV_DX_interop"@,
        }
    }

    /// The entry points of the capability, in the order in which their
    /// addresses are handed to [`WGLExtensionFunctions::load`].
    pub open spec fn symbols_spec(self) -> Seq<Seq<char>> {
        match self {
            WGLExtension::PixelFormat => seq![
                "wglChoosePixelFormatARB"@,
                "wglGetPixelFormatAttribivARB"@,
            ],
            WGLExtension::CreateContext => seq!["wglCreateContextAttribsARB"@],
            WGLExtension::DXInterop => seq![
                "wglDXCloseDeviceNV"@,
                "wglDXLockObjectsNV"@,
                "wglDXOpenDeviceNV"@,
                "wglDXRegisterObjectNV"@,
                "wglDXSetResourceShareHandleNV"@,
                "wglDXUnlockObjectsNV"@,
                "wglDXUnregisterObjectNV"@,
            ],
        }
    }

    pub fn name(self) -> (name: &'static str)
        ensures
            name@ == self.name_spec(),
    {
        match self {
            WGLExtension::PixelFormat => "WGL_ARB_pixel_format",
            WGLExtension::CreateContext => "WGL_ARB_create_context",
            WGLExtension::DXInterop => "WGL_NV_DX_interop",
        }
    }

    pub fn symbols(self) -> (symbols: Vec<&'static str>)
        ensures
            symbols@.len() == self.symbols_spec().len(),
            forall|i: int| 0 <= i < symbols@.len() ==> (#[trigger] symbols@[i])@ == self.symbols_spec()[i],
    {
        let mut symbols: Vec<&'static str> = Vec::new();
        match self {
            WGLExtension::PixelFormat => {
                symbols.push("wglChoosePixelFormatARB");
                symbols.push("wglGetPixelFormatAttribivARB");
            },
            WGLExtension::CreateContext => {
                symbols.push("wglCreateContextAttribsARB");
            },
            WGLExtension::DXInterop => {
                symbols.push("wglDXCloseDeviceNV");
                symbols.push("wglDXLockObjectsNV");
                symbols.push("wglDXOpenDeviceNV");
                symbols.push("wglDXRegisterObjectNV");
                symbols.push("wglDXSetResourceShareHandleNV");
                symbols.push("wglDXUnlockObjectsNV");
                symbols.push("wglDXUnregisterObjectNV");
            },
        }
        symbols
    }
}

/// The symbol through which the driver hands out its extension string.
pub fn extensions_string_symbol() -> (symbol: &'static str)
    ensures
        symbol@ == "wglGetExtensionsStringARB"@,
{
    "wglGetExtensionsStringARB"
}

/// Which of the known capabilities an extension string lists.
#[derive(Clone, Copy, Debug, PartialEq, Eq, Structural)]
pub struct DetectedExtensions {
    pub pixel_format: bool,
    pub create_context: bool,
    pub dx_interop: bool,
}

impl DetectedExtensions {
    /// What the extension string `s` makes of each known capability.
    pub open spec fn of(s: Seq<u8>) -> DetectedExtensions {
        DetectedExtensions {
            pixel_format: lists(s, ascii_bytes(WGLExtension::PixelFormat.name_spec())),
            create_context: lists(s, ascii_bytes(WGLExtension::CreateContext.name_spec())),
            dx_interop: lists(s, ascii_bytes(WGLExtension::DXInterop.name_spec())),
        }
    }

    /// The capabilities found, in the order pixel format, context creation,
    /// Direct3D sharing.
    pub open spec fn listed_spec(self) -> Seq<WGLExtension> {
        (if self.pixel_format { seq![WGLExtension::PixelFormat] } else { seq![] })
        + (if self.create_context { seq![WGLExtension::CreateContext] } else { seq![] })
        + (if self.dx_interop { seq![WGLExtension::DXInterop] } else { seq![] })
    }

    pub fn listed(&self) -> (found: Vec<WGLExtension>)
        ensures
            found@ == self.listed_spec(),
    {
        let mut found: Vec<WGLExtension> = Vec::new();
        if self.pixel_format {
            found.push(WGLExtension::PixelFormat);
        }
        if self.create_context {
            found.push(WGLExtension::CreateContext);
        }
        if self.dx_interop {
            found.push(WGLExtension::DXInterop);
        }
        assert(found@ =~= self.listed_spec());
        found
    }
}

/// The bytes of a capability's name.
fn name_bytes(extension: WGLExtension) -> (bytes: &'static [u8])
    ensures
        bytes@ == ascii_bytes(extension.name_spec()),
{
    broadcast use vstd::string::is_ascii_spec_bytes;

    proof {
        reveal_strlit("WGL_ARB_pixel_format");
        reveal_strlit("WGL_ARB_create_context");
        reveal_strlit("WGL_NV_DX_interop");
    }
    let name = extension.name();
    assert(name.is_ascii());
    name.as_bytes()
}

/// Whether `s[from..to]` spells `name`.
fn spells(s: &[u8], from: usize, to: usize, name: &[u8]) -> (same: bool)
    requires
        from <= to <= s@.len(),
    ensures
        same == (s@.subrange(from as int, to as int) == name@),
{
    if to - from != name.len() {
        return false;
    }
    let mut k: usize = 0;
    while k < name.len()
        invariant
            from <= to <= s@.len(),
            to - from == name@.len(),
            k <= name@.len(),
            forall|j: int| 0 <= j < k ==> s@[from + j] == name@[j],
        decreases name@.len() - k,
    {
        if s[from + k] != name[k] {
            assert(s@.subrange(from as int, to as int)[k as int] != name@[k as int]);
            return false;
        }
        k += 1;
    }
    assert(s@.subrange(from as int, to as int) =~= name@);
    true
}

/// `name` is listed as a token of `s` that ends before position `limit`.
spec fn listed_before(s: Seq<u8>, name: Seq<u8>, limit: int) -> bool {
    exists|from: int, to: int|
        #[trigger] is_token(s, from, to) && to < limit && s.subrange(from, to) == name
}

/// Finds the known capabilities among the names of an extension string.
///
/// A capability is detected exactly if its name stands in the string as a
/// whole name: a prefix or a longer name that contains it does not count.
pub fn detect_extensions(extensions: &[u8]) -> (detected: DetectedExtensions)
    ensures
        detected == DetectedExtensions::of(extensions@),
{
    let pixel_format_name = name_bytes(WGLExtension::PixelFormat);
    let create_context_name = name_bytes(WGLExtension::CreateContext);
    let dx_interop_name = name_bytes(WGLExtension::DXInterop);
    let ghost s = extensions@;
    let len = extensions.len();
    let mut detected = DetectedExtensions {
        pixel_format: false,
        create_context: false,
        dx_interop: false,
    };
    let mut start: usize = 0;
    let mut at: usize = 0;
    while at < len
        invariant
            s == extensions@,
            len == s.len(),
            start <= at <= len,
            start == 0 || s[start - 1] == SEPARATOR,
            forall|k: int| start <= k < at ==> s[k] != SEPARATOR,
            detected.pixel_format == listed_before(s, pixel_format_name@, start as int),
            detected.create_context == listed_before(s, create_context_name@, start as int),
            detected.dx_interop == listed_before(s, dx_interop_name@, start as int),
        decreases len - at,
    {
        if extensions[at] == SEPARATOR {
            let is_pixel_format = spells(extensions, start, at, pixel_format_name);
            let is_create_context = spells(extensions, start, at, create_context_name);
            let is_dx_interop = spells(extensions, start, at, dx_interop_name);
            proof {
                assert(is_token(s, start as int, at as int));
                lemma_next_token(s, pixel_format_name@, start as int, at as int);
                lemma_next_token(s, create_context_name@, start as int, at as int);
                lemma_next_token(s, dx_interop_name@, start as int, at as int);
            }
            detected.pixel_format = detected.pixel_format || is_pixel_format;
            detected.create_context = detected.create_context || is_create_context;
            detected.dx_interop = detected.dx_interop || is_dx_interop;
            start = at + 1;
        }
        at += 1;
    }
    // The last name runs to the end of the string.
    let is_pixel_format = spells(extensions, start, len, pixel_format_name);
    let is_create_context = spells(extensions, start, len, create_context_name);
    let is_dx_interop = spells(extensions, start, len, dx_interop_name);
    proof {
        assert(is_token(s, start as int, len as int));
        lemma_next_token(s, pixel_format_name@, start as int, len as int);
        lemma_next_token(s, create_context_name@, start as int, len as int);
        lemma_next_token(s, dx_interop_name@, start as int, len as int);
        lemma_listed_at_end(s, pixel_format_name@);
        lemma_listed_at_end(s, create_context_name@);
        lemma_listed_at_end(s, dx_interop_name@);
    }
    DetectedExtensions {
        pixel_format: detected.pixel_format || is_pixel_format,
        create_context: detected.create_context || is_create_context,
        dx_interop: detected.dx_interop || is_dx_interop,
    }
}

/// Once the token `s[start..at]` is closed, the names listed before `at + 1`
/// are those listed before `start` and that token.
proof fn lemma_next_token(s: Seq<u8>, name: Seq<u8>, start: int, at: int)
    requires
        is_token(s, start, at),
    ensures
        listed_before(s, name, at + 1) == (listed_before(s, name, start) || s.subrange(start, at)
            == name),
{
    if listed_before(s, name, at + 1) {
        let (from, to) = choose|from: int, to: int|
            #[trigger] is_token(s, from, to) && to < at + 1 && s.subrange(from, to) == name;
        if to >= start {
            // A token that ends in `start..=at` can only be the one just closed.
            assert(to == at) by {
                if to < at {
                    assert(s[to] == SEPARATOR);
                }
            }
            assert(from == start) by {
                if from < start {
                    assert(s[start - 1] == SEPARATOR);
                } else if from > start {
                    assert(s[from - 1] == SEPARATOR);
                }
            }
        } else {
            assert(is_token(s, from, to) && to < start && s.subrange(from, to) == name);
        }
    }
    if listed_before(s, name, start) {
        let (from, to) = choose|from: int, to: int|
            #[trigger] is_token(s, from, to) && to < start && s.subrange(from, to) == name;
        assert(is_token(s, from, to) && to < at + 1 && s.subrange(from, to) == name);
    }
    if s.subrange(start, at) == name {
        assert(is_token(s, start, at) && at < at + 1 && s.subrange(start, at) == name);
    }
}

/// Every token ends at or before the end of the string.
proof fn lemma_listed_at_end(s: Seq<u8>, name: Seq<u8>)
    ensures
        listed_before(s, name, s.len() as int + 1) == lists(s, name),
{
    if lists(s, name) {
        let (from, to) = choose|from: int, to: int|
            #[trigger] is_token(s, from, to) && s.subrange(from, to) == name;
        assert(is_token(s, from, to) && to < s.len() + 1 && s.subrange(from, to) == name);
    }
}

} // verus!
