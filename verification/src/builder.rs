//! The bundle builder: a fluent accumulator of genesis inputs, consumed by
//! one finalization pass that assembles the immutable genesis bundle.
//!
//! Loading a module group from a recorded filesystem path is the work of an
//! outside module-loader collaborator: the caller performs the two loads
//! and hands their outcomes to `build`, which decides and assembles.

use vstd::prelude::*;
use crate::bundle::{Genesis, GenesisView, Object, TxContext, group_view, groups_view, objects_view};
use crate::codec::CompiledModule;

verus! {

/// A validator public key, opaque to this library and carried as bytes.
#[derive(Clone, Debug, PartialEq, Eq)]
pub struct PublicKeyBytes {
    pub bytes: Vec<u8>,
}

impl View for PublicKeyBytes {
    type V = Seq<u8>;

    open spec fn view(&self) -> Seq<u8> {
        self.bytes@
    }
}

/// Which of the two required module-group sources an error is about.
#[derive(Clone, Copy, Debug, PartialEq, Eq, Structural)]
pub enum GroupKind {
    /// The standard-library group, loaded first.
    MoveStdlib,
    /// The framework group, loaded second.
    SuiFramework,
}

/// Why finalization failed. No partially built bundle is ever observable.
#[derive(Clone, Debug, PartialEq, Eq)]
pub enum BuildError {
    /// The named source path was never recorded before `build`.
    SourceMissing(GroupKind),
    /// The outside loader could not produce the named module group; carries
    /// the loader's message.
    LoadFailure(GroupKind, String),
}

/// The mathematical value of a builder: every accumulated input down to
/// plain values, append orders preserved.
#[verifier::ext_equal]
pub ghost struct BuilderView {
    pub sui_framework: Option<Seq<char>>,
    pub move_framework: Option<Seq<char>>,
    pub move_modules: Seq<Seq<Seq<u8>>>,
    pub objects: Seq<Seq<u8>>,
    pub genesis_ctx: Option<Seq<u8>>,
    pub validators: Seq<(Seq<u8>, usize)>,
}

/// The accumulator. Every operation but `build` returns the builder itself
/// for chaining; `build` consumes it, so a builder finalizes at most once.
pub struct Builder {
    sui_framework: Option<String>,
    move_framework: Option<String>,
    move_modules: Vec<Vec<CompiledModule>>,
    objects: Vec<Object>,
    genesis_ctx: Option<TxContext>,
    validators: Vec<(PublicKeyBytes, usize)>,
}

pub open spec fn opt_path_view(o: Option<String>) -> Option<Seq<char>> {
    match o {
        Some(s) => Some(s@),
        None => None,
    }
}

pub open spec fn opt_ctx_view(o: Option<TxContext>) -> Option<Seq<u8>> {
    match o {
        Some(c) => Some(c@),
        None => None,
    }
}

impl View for Builder {
    type V = BuilderView;

    closed spec fn view(&self) -> BuilderView {
        BuilderView {
            sui_framework: opt_path_view(self.sui_framework),
            move_framework: opt_path_view(self.move_framework),
            move_modules: groups_view(self.move_modules@),
            objects: objects_view(self.objects@),
            genesis_ctx: opt_ctx_view(self.genesis_ctx),
            validators: self.validators@.map_values(|v: (PublicKeyBytes, usize)| (v.0@, v.1)),
        }
    }
}

/// The module groups a finished bundle holds, given the two loaded groups:
/// the standard library first, the framework second, then the accumulated
/// caller-supplied groups in append order.
pub open spec fn assembled_module_groups(
    b: BuilderView,
    stdlib: Seq<Seq<u8>>,
    framework: Seq<Seq<u8>>,
) -> Seq<Seq<Seq<u8>>> {
    seq![stdlib, framework] + b.move_modules
}

/// What recording the framework source does to the builder value.
pub open spec fn spec_sui_framework(b: BuilderView, path: Seq<char>) -> BuilderView {
    BuilderView { sui_framework: Some(path), ..b }
}

/// What recording the standard-library source does to the builder value.
pub open spec fn spec_move_framework(b: BuilderView, path: Seq<char>) -> BuilderView {
    BuilderView { move_framework: Some(path), ..b }
}

/// What appending caller-supplied module groups does to the builder value.
pub open spec fn spec_add_move_modules(b: BuilderView, groups: Seq<Seq<Seq<u8>>>) -> BuilderView {
    BuilderView { move_modules: b.move_modules + groups, ..b }
}

/// What appending one object does to the builder value.
pub open spec fn spec_add_object(b: BuilderView, object: Seq<u8>) -> BuilderView {
    BuilderView { objects: b.objects.push(object), ..b }
}

/// What appending many objects does to the builder value.
pub open spec fn spec_add_objects(b: BuilderView, objects: Seq<Seq<u8>>) -> BuilderView {
    BuilderView { objects: b.objects + objects, ..b }
}

/// What overriding the genesis context does to the builder value.
pub open spec fn spec_genesis_ctx(b: BuilderView, ctx: Seq<u8>) -> BuilderView {
    BuilderView { genesis_ctx: Some(ctx), ..b }
}

/// What recording a pending validator entry does to the builder value.
pub open spec fn spec_add_validator(b: BuilderView, key: Seq<u8>, stake: usize) -> BuilderView {
    BuilderView { validators: b.validators.push((key, stake)), ..b }
}

impl Builder {
    /// A fresh builder with nothing accumulated.
    pub fn new() -> (r: Builder)
        ensures
            r@ == (BuilderView {
                sui_framework: None,
                move_framework: None,
                move_modules: Seq::empty(),
                objects: Seq::empty(),
                genesis_ctx: None,
                validators: Seq::empty(),
            }),
    {
        let r = Builder {
            sui_framework: None,
            move_framework: None,
            move_modules: Vec::new(),
            objects: Vec::new(),
            genesis_ctx: None,
            validators: Vec::new(),
        };
        proof {
            assert(r@.move_modules =~= Seq::<Seq<Seq<u8>>>::empty());
            assert(r@.objects =~= Seq::<Seq<u8>>::empty());
            assert(r@.validators =~= Seq::<(Seq<u8>, usize)>::empty());
        }
        r
    }

    /// Record the filesystem path of the framework module group. Required
    /// before `build`.
    pub fn sui_framework(self, path: String) -> (r: Builder)
        ensures
            r@ == spec_sui_framework(self@, path@),
    {
        let mut b = self;
        b.sui_framework = Some(path);
        b
    }

    /// Record the filesystem path of the standard-library module group.
    /// Required before `build`.
    pub fn move_framework(self, path: String) -> (r: Builder)
        ensures
            r@ == spec_move_framework(self@, path@),
    {
        let mut b = self;
        b.move_framework = Some(path);
        b
    }

    /// Append caller-supplied module groups, to be placed after the
    /// standard-library and framework groups, in call order.
    pub fn add_move_modules(self, modules: Vec<Vec<CompiledModule>>) -> (r: Builder)
        ensures
            r@ == spec_add_move_modules(self@, groups_view(modules@)),
    {
        let ghost appended = groups_view(modules@);
        let mut b = self;
        let mut modules = modules;
        b.move_modules.append(&mut modules);
        proof {
            assert(groups_view(b.move_modules@) =~= self@.move_modules + appended);
        }
        b
    }

    /// Append one initial object, preserving order.
    pub fn add_object(self, object: Object) -> (r: Builder)
        ensures
            r@ == spec_add_object(self@, object@),
    {
        let mut b = self;
        b.objects.push(object);
        proof {
            assert(objects_view(b.objects@) =~= self@.objects.push(object@));
        }
        b
    }

    /// Append many initial objects, preserving order.
    pub fn add_objects(self, objects: Vec<Object>) -> (r: Builder)
        ensures
            r@ == spec_add_objects(self@, objects_view(objects@)),
    {
        let ghost appended = objects_view(objects@);
        let mut b = self;
        let mut objects = objects;
        b.objects.append(&mut objects);
        proof {
            assert(objects_view(b.objects@) =~= self@.objects + appended);
        }
        b
    }

    /// Override the default genesis transaction context.
    pub fn genesis_ctx(self, genesis_ctx: TxContext) -> (r: Builder)
        ensures
            r@ == spec_genesis_ctx(self@, genesis_ctx@),
    {
        let mut b = self;
        b.genesis_ctx = Some(genesis_ctx);
        b
    }

    /// Record a pending validator entry. Accepted and kept on the builder,
    /// but not yet part of the produced bundle's persisted schema: `build`
    /// deliberately leaves the entries out, as its contract states.
    pub fn add_validator(self, public_key: PublicKeyBytes, stake: usize) -> (r: Builder)
        ensures
            r@ == spec_add_validator(self@, public_key@, stake),
    {
        let mut b = self;
        b.validators.push((public_key, stake));
        proof {
            assert(b@.validators =~= self@.validators.push((public_key@, stake)));
        }
        b
    }

    /// Finalize. The caller resolves the two recorded paths through the
    /// outside module loader and passes the outcomes; `build` fails with
    /// `SourceMissing` where a required path was never recorded (the
    /// standard-library source is checked first), with `LoadFailure` where
    /// a loader outcome is an error, and otherwise assembles the bundle:
    /// standard-library group first, framework group second, caller groups
    /// in append order, objects as accumulated, and the recorded context or
    /// else the given default. Pending validator entries are left out.
    pub fn build(
        self,
        move_stdlib: Result<Vec<CompiledModule>, String>,
        sui_framework: Result<Vec<CompiledModule>, String>,
        default_ctx: TxContext,
    ) -> (r: Result<Genesis, BuildError>)
        ensures
            self@.move_framework is None ==> (r matches Err(e) && e == BuildError::SourceMissing(
                GroupKind::MoveStdlib,
            )),
            self@.move_framework is Some && self@.sui_framework is None ==> (r matches Err(e)
                && e == BuildError::SourceMissing(GroupKind::SuiFramework)),
            self@.move_framework is Some && self@.sui_framework is Some && move_stdlib is Err ==> (
            r matches Err(e) && e matches BuildError::LoadFailure(k, msg) && k
                == GroupKind::MoveStdlib && msg@ == move_stdlib->Err_0@),
            self@.move_framework is Some && self@.sui_framework is Some && move_stdlib is Ok
                && sui_framework is Err ==> (r matches Err(e) && e matches BuildError::LoadFailure(
                k,
                msg,
            ) && k == GroupKind::SuiFramework && msg@ == sui_framework->Err_0@),
            self@.move_framework is Some && self@.sui_framework is Some && move_stdlib is Ok
                && sui_framework is Ok ==> (r matches Ok(g) && g@ == (GenesisView {
                modules: assembled_module_groups(
                    self@,
                    group_view(move_stdlib->Ok_0@),
                    group_view(sui_framework->Ok_0@),
                ),
                objects: self@.objects,
                genesis_ctx: if self@.genesis_ctx is Some {
                    self@.genesis_ctx->Some_0
                } else {
                    default_ctx@
                },
            })),
    {
        if self.move_framework.is_none() {
            return Err(BuildError::SourceMissing(GroupKind::MoveStdlib));
        }
        if self.sui_framework.is_none() {
            return Err(BuildError::SourceMissing(GroupKind::SuiFramework));
        }
        let stdlib_group = match move_stdlib {
            Ok(g) => g,
            Err(m) => {
                return Err(BuildError::LoadFailure(GroupKind::MoveStdlib, m));
            },
        };
        let framework_group = match sui_framework {
            Ok(g) => g,
            Err(m) => {
                return Err(BuildError::LoadFailure(GroupKind::SuiFramework, m));
            },
        };
        let ghost pre = self@;
        let Builder { sui_framework: _, move_framework: _, move_modules, objects, genesis_ctx, validators: _ } =
            self;
        let mut modules: Vec<Vec<CompiledModule>> = Vec::new();
        let ghost stdlib_view = group_view(stdlib_group@);
        let ghost framework_view = group_view(framework_group@);
        modules.push(stdlib_group);
        modules.push(framework_group);
        let mut rest = move_modules;
        modules.append(&mut rest);
        let ctx = match genesis_ctx {
            Some(c) => c,
            None => default_ctx,
        };
        let g = Genesis::from_parts(modules, objects, ctx);
        proof {
            assert(g@.modules =~~= assembled_module_groups(pre, stdlib_view, framework_view));
        }
        Ok(g)
    }
}

/// Group order determinism: however accumulation of objects, a context
/// override, or pending validator entries is interleaved, the assembled
/// group order is fixed — the standard-library group first, the framework
/// group second, then the caller-supplied groups in append order.
pub proof fn lemma_group_order_determinism(
    b: BuilderView,
    stdlib: Seq<Seq<u8>>,
    framework: Seq<Seq<u8>>,
    object: Seq<u8>,
    objects: Seq<Seq<u8>>,
    ctx: Seq<u8>,
    key: Seq<u8>,
    stake: usize,
    groups: Seq<Seq<Seq<u8>>>,
)
    ensures
        assembled_module_groups(b, stdlib, framework)[0] == stdlib,
        assembled_module_groups(b, stdlib, framework)[1] == framework,
        assembled_module_groups(b, stdlib, framework).len() == 2 + b.move_modules.len(),
        forall|i: int|
            0 <= i < b.move_modules.len() ==> assembled_module_groups(b, stdlib, framework)[2 + i]
                == b.move_modules[i],
        assembled_module_groups(spec_add_object(b, object), stdlib, framework)
            == assembled_module_groups(b, stdlib, framework),
        assembled_module_groups(spec_add_objects(b, objects), stdlib, framework)
            == assembled_module_groups(b, stdlib, framework),
        assembled_module_groups(spec_genesis_ctx(b, ctx), stdlib, framework)
            == assembled_module_groups(b, stdlib, framework),
        assembled_module_groups(spec_add_validator(b, key, stake), stdlib, framework)
            == assembled_module_groups(b, stdlib, framework),
        assembled_module_groups(spec_add_move_modules(b, groups), stdlib, framework)
            == assembled_module_groups(b, stdlib, framework) + groups,
{
    assert(assembled_module_groups(spec_add_move_modules(b, groups), stdlib, framework)
        =~= assembled_module_groups(b, stdlib, framework) + groups);
}

} // verus!
