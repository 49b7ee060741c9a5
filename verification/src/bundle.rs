//! The genesis bundle: an immutable container of ordered module groups,
//! initial objects and the genesis transaction context, together with its
//! dual-mode persisted form.

use vstd::prelude::*;
use crate::codec::{
    CompiledModule,
    EncodingMode,
    ModuleDecodeError,
    ModuleRepr,
    copy_bytes,
    decode_module,
    encode_module,
    fits_base64,
    spec_decode_module,
    spec_decode_module_error,
};

verus! {

/// An initial on-chain object, opaque to this library and carried in its
/// native serialized form. Preserved exactly as given.
#[derive(Clone, Debug, PartialEq, Eq)]
pub struct Object {
    pub data: Vec<u8>,
}

impl View for Object {
    type V = Seq<u8>;

    open spec fn view(&self) -> Seq<u8> {
        self.data@
    }
}

impl Object {
    pub fn new(data: Vec<u8>) -> (r: Self)
        ensures
            r@ == data@,
    {
        Object { data }
    }
}

/// The transaction context that stamps entities created at genesis, opaque
/// to this library and carried in its native serialized form.
#[derive(Clone, Debug, PartialEq, Eq)]
pub struct TxContext {
    pub data: Vec<u8>,
}

impl View for TxContext {
    type V = Seq<u8>;

    open spec fn view(&self) -> Seq<u8> {
        self.data@
    }
}

impl TxContext {
    pub fn new(data: Vec<u8>) -> (r: Self)
        ensures
            r@ == data@,
    {
        TxContext { data }
    }
}

/// The contents of one module group: the byte form of each module, in group
/// order.
pub open spec fn group_view(g: Seq<CompiledModule>) -> Seq<Seq<u8>> {
    g.map_values(|m: CompiledModule| m@)
}

/// The contents of a sequence of module groups, order preserved at both
/// levels.
pub open spec fn groups_view(gs: Seq<Vec<CompiledModule>>) -> Seq<Seq<Seq<u8>>> {
    gs.map_values(|g: Vec<CompiledModule>| group_view(g@))
}

/// The contents of a sequence of objects.
pub open spec fn objects_view(os: Seq<Object>) -> Seq<Seq<u8>> {
    os.map_values(|o: Object| o@)
}

/// The mathematical value of a genesis bundle: every field down to plain
/// byte sequences, orders preserved.
#[verifier::ext_equal]
pub ghost struct GenesisView {
    pub modules: Seq<Seq<Seq<u8>>>,
    pub objects: Seq<Seq<u8>>,
    pub genesis_ctx: Seq<u8>,
}

/// The genesis bundle. Immutable once produced by the builder: it offers
/// read-only views and no mutation.
#[derive(Clone, Debug, PartialEq, Eq)]
pub struct Genesis {
    modules: Vec<Vec<CompiledModule>>,
    objects: Vec<Object>,
    genesis_ctx: TxContext,
}

impl View for Genesis {
    type V = GenesisView;

    closed spec fn view(&self) -> GenesisView {
        GenesisView {
            modules: groups_view(self.modules@),
            objects: objects_view(self.objects@),
            genesis_ctx: self.genesis_ctx@,
        }
    }
}

impl Genesis {
    /// Construction is reserved to the builder: the bundle is produced once,
    /// by one finalization pass.
    pub(crate) fn from_parts(
        modules: Vec<Vec<CompiledModule>>,
        objects: Vec<Object>,
        genesis_ctx: TxContext,
    ) -> (r: Genesis)
        ensures
            r@ == (GenesisView {
                modules: groups_view(modules@),
                objects: objects_view(objects@),
                genesis_ctx: genesis_ctx@,
            }),
    {
        Genesis { modules, objects, genesis_ctx }
    }

    /// The module groups, in load order: standard library, framework, then
    /// the caller-supplied groups.
    pub fn modules(&self) -> (r: &Vec<Vec<CompiledModule>>)
        ensures
            groups_view(r@) == self@.modules,
    {
        &self.modules
    }

    /// The initial objects, in the order they were accumulated.
    pub fn objects(&self) -> (r: &Vec<Object>)
        ensures
            objects_view(r@) == self@.objects,
    {
        &self.objects
    }

    /// The genesis transaction context.
    pub fn genesis_ctx(&self) -> (r: &TxContext)
        ensures
            r@ == self@.genesis_ctx,
    {
        &self.genesis_ctx
    }
}

/// The persisted form of a genesis bundle: the same three fields, with each
/// module replaced by its mode-selected representation at the leaf. Objects
/// and the context keep their native serialized bytes in both modes.
#[derive(Clone, Debug, PartialEq, Eq)]
pub struct GenesisDocument {
    pub module_groups: Vec<Vec<ModuleRepr>>,
    pub objects: Vec<Vec<u8>>,
    pub genesis_ctx: Vec<u8>,
}

/// Where decoding a document failed: the module group, the index inside it,
/// and the reason.
#[derive(Clone, Copy, Debug, PartialEq, Eq, Structural)]
pub struct DecodeError {
    pub group: usize,
    pub index: usize,
    pub kind: ModuleDecodeError,
}

/// What decoding one group of module representations yields: the bytes of
/// every module in order, or `None` where any element fails.
pub open spec fn spec_decode_group(reprs: Seq<ModuleRepr>, mode: EncodingMode) -> Option<
    Seq<Seq<u8>>,
> {
    if forall|i: int|
        0 <= i < reprs.len() ==> spec_decode_module(#[trigger] reprs[i], mode) is Some {
        Some(Seq::new(reprs.len(), |i: int| spec_decode_module(reprs[i], mode)->Some_0))
    } else {
        None
    }
}

/// What decoding a sequence of groups yields, element order preserved at
/// both levels.
pub open spec fn spec_decode_groups(gs: Seq<Vec<ModuleRepr>>, mode: EncodingMode) -> Option<
    Seq<Seq<Seq<u8>>>,
> {
    if forall|i: int| 0 <= i < gs.len() ==> spec_decode_group(#[trigger] gs[i]@, mode) is Some {
        Some(Seq::new(gs.len(), |i: int| spec_decode_group(gs[i]@, mode)->Some_0))
    } else {
        None
    }
}

/// What decoding a whole document yields: the bundle value, or `None` where
/// any module representation fails under the mode.
pub open spec fn spec_decode_document(doc: GenesisDocument, mode: EncodingMode) -> Option<
    GenesisView,
> {
    match spec_decode_groups(doc.module_groups@, mode) {
        Some(ms) => Some(
            GenesisView {
                modules: ms,
                objects: doc.objects@.map_values(|o: Vec<u8>| o@),
                genesis_ctx: doc.genesis_ctx@,
            },
        ),
        None => None,
    }
}

/// Encode one module group element-wise. The result decodes back to exactly
/// the group's contents, in the same order: this is the order-preservation
/// guarantee at group level.
pub fn encode_module_group(group: &Vec<CompiledModule>, mode: EncodingMode) -> (r: Vec<ModuleRepr>)
    requires
        mode is HumanReadable ==> forall|i: int|
            0 <= i < group@.len() ==> fits_base64(#[trigger] group@[i]@),
    ensures
        spec_decode_group(r@, mode) == Some(group_view(group@)),
{
    let mut out: Vec<ModuleRepr> = Vec::new();
    let mut i: usize = 0;
    while i < group.len()
        invariant
            i <= group.len(),
            out@.len() == i,
            mode is HumanReadable ==> forall|j: int|
                0 <= j < group@.len() ==> fits_base64(#[trigger] group@[j]@),
            forall|j: int|
                0 <= j < i ==> spec_decode_module(#[trigger] out@[j], mode) == Some(group@[j]@),
        decreases group.len() - i,
    {
        proof {
            assert(mode is HumanReadable ==> fits_base64(group@[i as int]@));
        }
        out.push(encode_module(&group[i], mode));
        i += 1;
    }
    proof {
        assert(spec_decode_group(out@, mode) is Some);
        assert(spec_decode_group(out@, mode)->Some_0 =~= group_view(group@));
    }
    out
}

/// Decode one module group element-wise. Succeeds exactly where every
/// element decodes; otherwise reports the first failing index and its
/// reason.
pub fn decode_module_group(reprs: &Vec<ModuleRepr>, mode: EncodingMode) -> (r: Result<
    Vec<CompiledModule>,
    (usize, ModuleDecodeError),
>)
    ensures
        r matches Ok(g) ==> spec_decode_group(reprs@, mode) == Some(group_view(g@)),
        r is Ok <==> spec_decode_group(reprs@, mode) is Some,
        r matches Err(e) ==> {
            &&& e.0 < reprs@.len()
            &&& spec_decode_module(reprs@[e.0 as int], mode) is None
            &&& e.1 == spec_decode_module_error(reprs@[e.0 as int], mode)
            &&& forall|j: int|
                0 <= j < e.0 ==> spec_decode_module(#[trigger] reprs@[j], mode) is Some
        },
{
    let mut out: Vec<CompiledModule> = Vec::new();
    let mut i: usize = 0;
    while i < reprs.len()
        invariant
            i <= reprs.len(),
            out@.len() == i,
            forall|j: int|
                0 <= j < i ==> spec_decode_module(#[trigger] reprs@[j], mode) == Some(out@[j]@),
        decreases reprs.len() - i,
    {
        match decode_module(&reprs[i], mode) {
            Ok(m) => out.push(m),
            Err(kind) => {
                return Err((i, kind));
            },
        }
        i += 1;
    }
    proof {
        assert(spec_decode_group(reprs@, mode) is Some);
        assert(spec_decode_group(reprs@, mode)->Some_0 =~= group_view(out@));
    }
    Ok(out)
}

/// Serialize a genesis bundle into its persisted form for the given mode.
/// The ensures is the bundle-level round-trip guarantee: decoding the
/// produced document under the same mode yields the bundle back, in both
/// the binary and the human-readable mode.
pub fn encode_genesis(g: &Genesis, mode: EncodingMode) -> (r: GenesisDocument)
    requires
        mode is HumanReadable ==> forall|i: int, j: int|
            0 <= i < g@.modules.len() && 0 <= j < g@.modules[i].len() ==> fits_base64(
                #[trigger] g@.modules[i][j],
            ),
    ensures
        spec_decode_document(r, mode) == Some(g@),
{
    let groups = g.modules();
    proof {
        if mode is HumanReadable {
            assert forall|a: int, b: int|
                0 <= a < groups@.len() && 0 <= b < groups@[a]@.len() implies fits_base64(
                #[trigger] groups@[a]@[b]@,
            ) by {
                assert(g@.modules[a][b] == groups@[a]@[b]@);
            }
        }
    }
    let mut module_groups: Vec<Vec<ModuleRepr>> = Vec::new();
    let mut i: usize = 0;
    while i < groups.len()
        invariant
            i <= groups.len(),
            module_groups@.len() == i,
            mode is HumanReadable ==> forall|a: int, b: int|
                0 <= a < groups@.len() && 0 <= b < groups@[a]@.len() ==> fits_base64(
                    #[trigger] groups@[a]@[b]@,
                ),
            forall|j: int|
                0 <= j < i ==> spec_decode_group(#[trigger] module_groups@[j]@, mode) == Some(
                    group_view(groups@[j]@),
                ),
        decreases groups.len() - i,
    {
        module_groups.push(encode_module_group(&groups[i], mode));
        i += 1;
    }
    let mut objects: Vec<Vec<u8>> = Vec::new();
    let objs = g.objects();
    let mut k: usize = 0;
    while k < objs.len()
        invariant
            k <= objs.len(),
            objects@.len() == k,
            forall|j: int| 0 <= j < k ==> #[trigger] objects@[j]@ == objs@[j]@,
        decreases objs.len() - k,
    {
        objects.push(copy_bytes(&objs[k].data));
        k += 1;
    }
    let genesis_ctx = copy_bytes(&g.genesis_ctx().data);
    let doc = GenesisDocument { module_groups, objects, genesis_ctx };
    proof {
        assert(spec_decode_groups(doc.module_groups@, mode) is Some);
        assert(spec_decode_groups(doc.module_groups@, mode)->Some_0 =~~= g@.modules);
        assert(doc.objects@.map_values(|o: Vec<u8>| o@) =~= g@.objects);
        assert(spec_decode_document(doc, mode)->Some_0 =~~= g@);
    }
    doc
}

/// Deserialize a persisted document under the given mode. Succeeds exactly
/// where every module representation decodes under that mode, and then
/// returns the bundle the document describes; otherwise it names the first
/// failing group, index and reason, in scan order.
pub fn decode_genesis(doc: &GenesisDocument, mode: EncodingMode) -> (r: Result<
    Genesis,
    DecodeError,
>)
    ensures
        r matches Ok(g) ==> spec_decode_document(*doc, mode) == Some(g@),
        r is Ok <==> spec_decode_document(*doc, mode) is Some,
        r matches Err(e) ==> {
            &&& e.group < doc.module_groups@.len()
            &&& e.index < doc.module_groups@[e.group as int]@.len()
            &&& spec_decode_module(doc.module_groups@[e.group as int]@[e.index as int], mode)
                is None
            &&& e.kind == spec_decode_module_error(
                doc.module_groups@[e.group as int]@[e.index as int],
                mode,
            )
            &&& forall|gj: int|
                0 <= gj < e.group ==> spec_decode_group(
                    #[trigger] doc.module_groups@[gj]@,
                    mode,
                ) is Some
            &&& forall|j: int|
                0 <= j < e.index ==> spec_decode_module(
                    #[trigger] doc.module_groups@[e.group as int]@[j],
                    mode,
                ) is Some
        },
{
    let mut modules: Vec<Vec<CompiledModule>> = Vec::new();
    let mut i: usize = 0;
    while i < doc.module_groups.len()
        invariant
            i <= doc.module_groups.len(),
            modules@.len() == i,
            forall|j: int|
                0 <= j < i ==> spec_decode_group(#[trigger] doc.module_groups@[j]@, mode) == Some(
                    group_view(modules@[j]@),
                ),
        decreases doc.module_groups.len() - i,
    {
        match decode_module_group(&doc.module_groups[i], mode) {
            Ok(g) => modules.push(g),
            Err((index, kind)) => {
                proof {
                    assert(spec_decode_group(doc.module_groups@[i as int]@, mode) is None);
                    assert(spec_decode_groups(doc.module_groups@, mode) is None);
                }
                return Err(DecodeError { group: i, index, kind });
            },
        }
        i += 1;
    }
    let mut objects: Vec<Object> = Vec::new();
    let mut k: usize = 0;
    while k < doc.objects.len()
        invariant
            k <= doc.objects.len(),
            objects@.len() == k,
            forall|j: int| 0 <= j < k ==> #[trigger] objects@[j]@ == doc.objects@[j]@,
        decreases doc.objects.len() - k,
    {
        let data = copy_bytes(&doc.objects[k]);
        objects.push(Object { data });
        k += 1;
    }
    let genesis_ctx = TxContext { data: copy_bytes(&doc.genesis_ctx) };
    let g = Genesis::from_parts(modules, objects, genesis_ctx);
    proof {
        assert(spec_decode_groups(doc.module_groups@, mode) is Some);
        assert(spec_decode_groups(doc.module_groups@, mode)->Some_0 =~~= groups_view(modules@));
        assert(objects_view(objects@) =~= doc.objects@.map_values(|o: Vec<u8>| o@));
        assert(spec_decode_document(*doc, mode)->Some_0 =~~= g@);
    }
    Ok(g)
}

} // verus!
