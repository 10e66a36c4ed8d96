//! The settings of a renderer.
use vstd::prelude::*;

use crate::antialiasing::Antialiasing;
use crate::format::TextureFormat;
use crate::resource::Device;
use crate::resource::Instance;
use crate::resource::Queue;

verus! {

/// The settings with which a renderer is constructed.
///
/// A value of this type is immutable once built: any change produces a new
/// value. It owns none of the GPU resources it references; the handles, when
/// present, are shared with the embedding application and with the renderer
/// that adopts them.
#[derive(Clone, Copy, Debug)]
pub struct Settings {
    /// The output format of the renderer.
    pub format: TextureFormat,

    /// The bytes of the font that will be used by default.
    ///
    /// The bytes are owned by the embedding application and stay valid for
    /// the whole process. If `None` is provided, a default system font will
    /// be chosen.
    pub default_font: Option<&'static [u8]>,

    /// The default size of text, in the renderer's text-size unit.
    ///
    /// By default, it will be set to 20.
    pub default_text_size: u16,

    /// The antialiasing strategy that will be used for triangle primitives,
    /// or `None` for no antialiasing.
    pub antialiasing: Option<Antialiasing>,

    /// If `Some`, this instance will be used, otherwise a new instance will
    /// be created.
    pub instance: Option<Instance>,

    /// If `Some`, this device/queue pair will be used, otherwise a new one
    /// will be requested. The device and the queue co-occur by construction:
    /// a configuration cannot hold one without the other.
    pub device_queue: Option<(Device, Queue)>,
}

/// The two font fields hold the same bytes: both absent, or both present
/// with equal contents. The blobs need not share an allocation.
pub open spec fn font_eq(a: Option<&'static [u8]>, b: Option<&'static [u8]>) -> bool {
    match (a, b) {
        (Some(x), Some(y)) => x@ == y@,
        (None, None) => true,
        _ => false,
    }
}

/// The two instance fields designate the same underlying instance: both
/// absent, or both present with the same identity.
pub open spec fn same_instance(a: Option<Instance>, b: Option<Instance>) -> bool {
    match (a, b) {
        (Some(x), Some(y)) => x.id == y.id,
        (None, None) => true,
        _ => false,
    }
}

/// The two device/queue fields designate the same underlying resources:
/// both absent, or both present with the same device identity and the same
/// queue identity.
pub open spec fn same_device_queue(
    a: Option<(Device, Queue)>,
    b: Option<(Device, Queue)>,
) -> bool {
    match (a, b) {
        (Some((dx, qx)), Some((dy, qy))) => dx.id == dy.id && qx.id == qy.id,
        (None, None) => true,
        _ => false,
    }
}

impl Settings {
    /// What equality of two configurations means: `format`,
    /// `default_font`, `default_text_size` and `antialiasing` are compared
    /// by value; `instance` and `device_queue` are compared by identity of
    /// the underlying resources, never by their contents.
    pub open spec fn equivalent(self, other: Settings) -> bool {
        &&& self.format == other.format
        &&& font_eq(self.default_font, other.default_font)
        &&& self.default_text_size == other.default_text_size
        &&& self.antialiasing == other.antialiasing
        &&& same_instance(self.instance, other.instance)
        &&& same_device_queue(self.device_queue, other.device_queue)
    }
}

/// Whether two byte slices hold the same bytes.
fn bytes_equal(a: &[u8], b: &[u8]) -> (r: bool)
    ensures
        r == (a@ == b@),
{
    if a.len() != b.len() {
        return false;
    }
    let mut i: usize = 0;
    while i < a.len()
        invariant
            a@.len() == b@.len(),
            i <= a@.len(),
            forall|j: int| 0 <= j < i ==> a@[j] == b@[j],
        decreases a@.len() - i,
    {
        if a[i] != b[i] {
            return false;
        }
        i = i + 1;
    }
    proof {
        assert(a@ =~= b@);
    }
    true
}

impl PartialEq for Settings {
    fn eq(&self, other: &Self) -> (r: bool) {
        self.format == other.format
            && (match (&self.default_font, &other.default_font) {
                (Some(x), Some(y)) => bytes_equal(x, y),
                (None, None) => true,
                _ => false,
            })
            && self.default_text_size == other.default_text_size
            && (match (&self.antialiasing, &other.antialiasing) {
                (Some(x), Some(y)) => *x == *y,
                (None, None) => true,
                _ => false,
            })
            && (match (&self.instance, &other.instance) {
                (Some(x), Some(y)) => x.id == y.id,
                (None, None) => true,
                _ => false,
            })
            && (match (&self.device_queue, &other.device_queue) {
                (Some((dx, qx)), Some((dy, qy))) => dx.id == dy.id && qx.id == qy.id,
                (None, None) => true,
                _ => false,
            })
    }
}

impl vstd::std_specs::cmp::PartialEqSpecImpl for Settings {
    open spec fn obeys_eq_spec() -> bool {
        true
    }

    open spec fn eq_spec(&self, other: &Settings) -> bool {
        self.equivalent(*other)
    }
}

impl Eq for Settings {}

impl Default for Settings {
    /// The default configuration: sRGB BGRA output, no explicit font, text
    /// size 20, no antialiasing, and no adopted GPU resources.
    fn default() -> (s: Settings)
        ensures
            s.format == TextureFormat::Bgra8UnormSrgb,
            s.default_font is None,
            s.default_text_size == 20,
            s.antialiasing is None,
            s.instance is None,
            s.device_queue is None,
    {
        Settings {
            format: TextureFormat::Bgra8UnormSrgb,
            default_font: None,
            default_text_size: 20,
            antialiasing: None,
            instance: None,
            device_queue: None,
        }
    }
}

/// Two configurations whose value fields agree and whose resource handles
/// are all absent are equal, however each of them was constructed:
/// with no resources in play, equality is purely by value.
pub proof fn lemma_value_only_equality(a: Settings, b: Settings)
    requires
        a.format == b.format,
        font_eq(a.default_font, b.default_font),
        a.default_text_size == b.default_text_size,
        a.antialiasing == b.antialiasing,
        a.instance is None,
        b.instance is None,
        a.device_queue is None,
        b.device_queue is None,
    ensures
        a.equivalent(b),
{
}

/// Two configurations that share their resource handles — the same
/// underlying instance, and device/queue handles that also agree — are
/// equal as soon as their value fields agree, even when those value fields
/// are independently constructed copies of identical values.
pub proof fn lemma_shared_resources_equality(a: Settings, b: Settings)
    requires
        a.format == b.format,
        font_eq(a.default_font, b.default_font),
        a.default_text_size == b.default_text_size,
        a.antialiasing == b.antialiasing,
        a.instance matches Some(x) && b.instance matches Some(y) && x.id == y.id,
        same_device_queue(a.device_queue, b.device_queue),
    ensures
        a.equivalent(b),
{
}

/// Two configurations holding handles to independently created instances —
/// instances with distinct identities — are never equal, whatever their
/// other fields hold.
pub proof fn lemma_independent_instances_differ(a: Settings, b: Settings)
    requires
        a.instance matches Some(x) && b.instance matches Some(y) && x.id != y.id,
    ensures
        !a.equivalent(b),
{
}

/// Equality of configurations is reflexive.
pub proof fn lemma_equivalent_reflexive(a: Settings)
    ensures
        a.equivalent(a),
{
}

/// Equality of configurations is symmetric.
pub proof fn lemma_equivalent_symmetric(a: Settings, b: Settings)
    ensures
        a.equivalent(b) == b.equivalent(a),
{
}

/// Equality of configurations is transitive.
pub proof fn lemma_equivalent_transitive(a: Settings, b: Settings, c: Settings)
    requires
        a.equivalent(b),
        b.equivalent(c),
    ensures
        a.equivalent(c),
{
}

} // verus!
