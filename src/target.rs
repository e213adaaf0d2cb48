//! The game's executables, and how a path or file name is matched to one.
use vstd::prelude::*;
use vstd::utf8::encode_utf8;

verus! {

/// The UTF-8 bytes of a string's characters.
pub open spec fn bytes_of(s: Seq<char>) -> Seq<u8> {
    encode_utf8(s)
}

/// ASCII lower case of one byte; every other byte is kept.
pub open spec fn lower_byte(b: u8) -> u8 {
    if 65 <= b && b <= 90 {
        (b + 32) as u8
    } else {
        b
    }
}

/// ASCII lower case of a byte string, byte by byte.
pub open spec fn ascii_lower(s: Seq<u8>) -> Seq<u8> {
    s.map_values(|b: u8| lower_byte(b))
}

/// A path separator: `/` or `\`.
pub open spec fn is_separator(b: u8) -> bool {
    b == 47 || b == 92
}

/// Where the last component of a path starts: just past its last separator,
/// or 0 where it has none.
pub open spec fn component_start(s: Seq<u8>) -> int
    decreases s.len(),
{
    if s.len() == 0 {
        0
    } else if is_separator(s.last()) {
        s.len() as int
    } else {
        component_start(s.drop_last())
    }
}

/// The file name of a path: the text after its last separator. A path that
/// ends in a separator, in `.` or in `..` has none.
pub open spec fn file_name(s: Seq<u8>) -> Option<Seq<u8>> {
    let t = s.subrange(component_start(s), s.len() as int);
    if t.len() == 0 || t == seq![46u8] || t == seq![46u8, 46u8] {
        None
    } else {
        Some(t)
    }
}

/// `bg3.exe`, the default renderer's executable.
pub open spec fn vulkan_exe_name() -> Seq<u8> {
    seq![98u8, 103u8, 51u8, 46u8, 101u8, 120u8, 101u8]
}

/// `bg3_dx11.exe`, the DirectX 11 renderer's executable.
pub open spec fn dx11_exe_name() -> Seq<u8> {
    seq![98u8, 103u8, 51u8, 95u8, 100u8, 120u8, 49u8, 49u8, 46u8, 101u8, 120u8, 101u8]
}

/// A build of the game that the loader knows.
#[derive(Clone, Copy, Debug, PartialEq, Eq, Structural)]
pub enum GameBinary {
    /// The default renderer, `bg3.exe`.
    Vulkan,
    /// The DirectX 11 renderer, `bg3_dx11.exe`.
    Dx11,
}

impl GameBinary {
    /// The lower-case file name that identifies this build.
    pub open spec fn exe_name(self) -> Seq<u8> {
        match self {
            GameBinary::Vulkan => vulkan_exe_name(),
            GameBinary::Dx11 => dx11_exe_name(),
        }
    }
}

/// The build whose file name a path has, ignoring ASCII case.
pub open spec fn binary_of(path: Seq<u8>) -> Option<GameBinary> {
    match file_name(ascii_lower(path)) {
        Some(name) => if name == vulkan_exe_name() {
            Some(GameBinary::Vulkan)
        } else if name == dx11_exe_name() {
            Some(GameBinary::Dx11)
        } else {
            None
        },
        None => None,
    }
}

/// The ASCII lower case of a byte string.
pub fn to_ascii_lower(s: &[u8]) -> (r: Vec<u8>)
    ensures
        r@ == ascii_lower(s@),
{
    let mut r: Vec<u8> = Vec::with_capacity(s.len());
    let mut i: usize = 0;
    while i < s.len()
        invariant
            i <= s@.len(),
            r@ == ascii_lower(s@.subrange(0, i as int)),
        decreases s@.len() - i,
    {
        let b = s[i];
        let l: u8 = if 65 <= b && b <= 90 { b + 32 } else { b };
        r.push(l);
        i = i + 1;
        assert(ascii_lower(s@.subrange(0, i as int)) =~= ascii_lower(s@.subrange(0, i - 1)).push(l));
    }
    assert(s@.subrange(0, s@.len() as int) =~= s@);
    r
}

proof fn lemma_component_start_bounds(s: Seq<u8>)
    ensures
        0 <= component_start(s) <= s.len(),
    decreases s.len(),
{
    if s.len() > 0 && !is_separator(s.last()) {
        lemma_component_start_bounds(s.drop_last());
    }
}

/// The file name of a path, as `file_name` defines it.
pub fn file_name_of(s: &[u8]) -> (r: Option<Vec<u8>>)
    ensures
        r matches Some(v) ==> file_name(s@) == Some(v@),
        r is None ==> file_name(s@) is None,
{
    let mut start: usize = 0;
    let mut i: usize = 0;
    while i < s.len()
        invariant
            i <= s@.len(),
            start as int == component_start(s@.subrange(0, i as int)),
        decreases s@.len() - i,
    {
        assert(s@.subrange(0, i + 1).drop_last() =~= s@.subrange(0, i as int));
        if s[i] == 47 || s[i] == 92 {
            start = i + 1;
        }
        i = i + 1;
    }
    assert(s@.subrange(0, s@.len() as int) =~= s@);
    proof {
        lemma_component_start_bounds(s@);
    }
    let mut t: Vec<u8> = Vec::with_capacity(s.len() - start);
    let mut j: usize = start;
    while j < s.len()
        invariant
            start <= j <= s@.len(),
            t@ == s@.subrange(start as int, j as int),
        decreases s@.len() - j,
    {
        t.push(s[j]);
        j = j + 1;
        assert(t@ =~= s@.subrange(start as int, j as int));
    }
    let n = t.len();
    if n == 0 || (n == 1 && t[0] == 46) || (n == 2 && t[0] == 46 && t[1] == 46) {
        assert(n == 1 ==> t@ =~= seq![46u8]);
        assert(n == 2 ==> t@ =~= seq![46u8, 46u8]);
        None
    } else {
        Some(t)
    }
}

/// The bytes of `bg3.exe`.
fn vulkan_exe_bytes() -> (r: Vec<u8>)
    ensures
        r@ == vulkan_exe_name(),
{
    let r: Vec<u8> = vec![98u8, 103u8, 51u8, 46u8, 101u8, 120u8, 101u8];
    assert(r@ =~= vulkan_exe_name());
    r
}

/// The bytes of `bg3_dx11.exe`.
fn dx11_exe_bytes() -> (r: Vec<u8>)
    ensures
        r@ == dx11_exe_name(),
{
    let r: Vec<u8> = vec![98u8, 103u8, 51u8, 95u8, 100u8, 120u8, 49u8, 49u8, 46u8, 101u8, 120u8, 101u8];
    assert(r@ =~= dx11_exe_name());
    r
}

/// Whether two byte strings are equal.
pub fn same_bytes(a: &[u8], b: &[u8]) -> (r: bool)
    ensures
        r == (a@ == b@),
{
    if a.len() != b.len() {
        return false;
    }
    let mut i: usize = 0;
    while i < a.len()
        invariant
            a@.len() == b@.len(),
            i <= a@.len(),
            a@.subrange(0, i as int) == b@.subrange(0, i as int),
        decreases a@.len() - i,
    {
        if a[i] != b[i] {
            assert(a@[i as int] != b@[i as int]);
            return false;
        }
        assert(a@.subrange(0, i + 1) =~= a@.subrange(0, i as int).push(a@[i as int]));
        assert(b@.subrange(0, i + 1) =~= b@.subrange(0, i as int).push(b@[i as int]));
        i = i + 1;
    }
    assert(a@ =~= a@.subrange(0, a@.len() as int));
    assert(b@ =~= b@.subrange(0, b@.len() as int));
    true
}

/// The build whose file name a path has, ignoring ASCII case.
pub fn binary_of_path(path: &str) -> (r: Option<GameBinary>)
    ensures
        r == binary_of(bytes_of(path@)),
{
    let lower = to_ascii_lower(path.as_bytes());
    match file_name_of(lower.as_slice()) {
        Some(name) => {
            let vulkan = vulkan_exe_bytes();
            let dx11 = dx11_exe_bytes();
            if same_bytes(name.as_slice(), vulkan.as_slice()) {
                Some(GameBinary::Vulkan)
            } else if same_bytes(name.as_slice(), dx11.as_slice()) {
                Some(GameBinary::Dx11)
            } else {
                None
            }
        },
        None => None,
    }
}

/// The absolute paths of the game's executables, one for each build. Each
/// path's file name is, ignoring ASCII case, that of its build.
#[derive(Debug)]
pub struct TargetPathSet {
    pub bg3: String,
    pub bg3_dx11: String,
}

impl TargetPathSet {
    /// Each path names the build that it stands for.
    pub open spec fn wf(&self) -> bool {
        &&& binary_of(bytes_of(self.bg3@)) == Some(GameBinary::Vulkan)
        &&& binary_of(bytes_of(self.bg3_dx11@)) == Some(GameBinary::Dx11)
    }

    /// The configured path of a build.
    pub open spec fn path_of(&self, b: GameBinary) -> Seq<char> {
        match b {
            GameBinary::Vulkan => self.bg3@,
            GameBinary::Dx11 => self.bg3_dx11@,
        }
    }

    /// The configured path that a name resolves to, if any.
    pub open spec fn resolved(&self, name: Seq<char>) -> Option<Seq<char>> {
        match binary_of(bytes_of(name)) {
            Some(b) => Some(self.path_of(b)),
            None => None,
        }
    }

    /// Whether a process image path is one of the configured paths, ignoring
    /// ASCII case.
    pub open spec fn matches_path(&self, path: Seq<char>) -> bool {
        ||| ascii_lower(bytes_of(path)) == ascii_lower(bytes_of(self.bg3@))
        ||| ascii_lower(bytes_of(path)) == ascii_lower(bytes_of(self.bg3_dx11@))
    }

    /// Whether a process image path is one of the configured paths, ignoring
    /// ASCII case.
    pub fn is_target(&self, path: &str) -> (r: bool)
        ensures
            r == self.matches_path(path@),
    {
        let p = to_ascii_lower(path.as_bytes());
        let a = to_ascii_lower(self.bg3.as_str().as_bytes());
        if same_bytes(p.as_slice(), a.as_slice()) {
            return true;
        }
        let b = to_ascii_lower(self.bg3_dx11.as_str().as_bytes());
        same_bytes(p.as_slice(), b.as_slice())
    }

    /// The set of paths, where each names its own build; `None` otherwise.
    pub fn new(bg3: String, bg3_dx11: String) -> (r: Option<TargetPathSet>)
        ensures
            r is Some <==> (binary_of(bytes_of(bg3@)) == Some(GameBinary::Vulkan)
                && binary_of(bytes_of(bg3_dx11@)) == Some(GameBinary::Dx11)),
            r matches Some(t) ==> t.wf() && t.bg3@ == bg3@ && t.bg3_dx11@ == bg3_dx11@,
    {
        let a = binary_of_path(bg3.as_str());
        let b = binary_of_path(bg3_dx11.as_str());
        if a == Some(GameBinary::Vulkan) && b == Some(GameBinary::Dx11) {
            Some(TargetPathSet { bg3, bg3_dx11 })
        } else {
            None
        }
    }

    /// The configured path of a build.
    pub fn path(&self, b: GameBinary) -> (r: String)
        ensures
            r@ == self.path_of(b),
    {
        match b {
            GameBinary::Vulkan => self.bg3.clone(),
            GameBinary::Dx11 => self.bg3_dx11.clone(),
        }
    }

    /// Resolves a path or file name, ignoring ASCII case, to the configured
    /// path of the build it names.
    pub fn resolve(&self, name: &str) -> (r: Option<String>)
        ensures
            r is Some <==> binary_of(bytes_of(name@)) is Some,
            r matches Some(p) ==> self.resolved(name@) == Some(p@),
    {
        match binary_of_path(name) {
            Some(b) => Some(self.path(b)),
            None => None,
        }
    }
}

proof fn lemma_lower_byte_idempotent(b: u8)
    ensures
        lower_byte(lower_byte(b)) == lower_byte(b),
{
}

/// Lower-casing a second time changes nothing.
pub proof fn lemma_ascii_lower_idempotent(s: Seq<u8>)
    ensures
        ascii_lower(ascii_lower(s)) == ascii_lower(s),
{
    assert forall|i: int| 0 <= i < s.len() implies #[trigger] ascii_lower(ascii_lower(s))[i]
        == ascii_lower(s)[i] by {
        lemma_lower_byte_idempotent(s[i]);
    }
    assert(ascii_lower(ascii_lower(s)) =~= ascii_lower(s));
}

/// Resolution ignores ASCII case: two names that agree once lower-cased,
/// such as `BG3_DX11.EXE` and `bg3_dx11.exe`, resolve to the same build, and
/// so to the same configured path; and a name resolves as its lower-case
/// form does.
pub proof fn lemma_resolve_ignores_case(paths: TargetPathSet, a: Seq<char>, b: Seq<char>)
    requires
        ascii_lower(bytes_of(a)) == ascii_lower(bytes_of(b)),
    ensures
        binary_of(bytes_of(a)) == binary_of(bytes_of(b)),
        paths.resolved(a) == paths.resolved(b),
        binary_of(ascii_lower(bytes_of(a))) == binary_of(bytes_of(a)),
{
    lemma_ascii_lower_idempotent(bytes_of(a));
}

/// A build's own file name resolves to it, in any ASCII case.
pub proof fn lemma_exe_name_resolves(paths: TargetPathSet, b: GameBinary, name: Seq<char>)
    requires
        ascii_lower(bytes_of(name)) == b.exe_name(),
    ensures
        binary_of(bytes_of(name)) == Some(b),
        paths.resolved(name) == Some(paths.path_of(b)),
{
    let n = bytes_of(name);
    let l = ascii_lower(n);
    assert(component_start(l) == 0) by {
        lemma_component_start_no_separator(l);
    }
    assert(l.subrange(0, l.len() as int) =~= l);
}

proof fn lemma_component_start_no_separator(s: Seq<u8>)
    requires
        forall|i: int| 0 <= i < s.len() ==> !is_separator(#[trigger] s[i]),
    ensures
        component_start(s) == 0,
    decreases s.len(),
{
    if s.len() > 0 {
        lemma_component_start_no_separator(s.drop_last());
    }
}

} // verus!
