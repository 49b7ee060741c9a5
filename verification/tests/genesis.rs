use sui_genesis::builder::{BuildError, Builder, GroupKind, PublicKeyBytes};
use sui_genesis::bundle::{decode_genesis, encode_genesis, GenesisDocument, Object, TxContext};
use sui_genesis::codec::{
    decode_module, encode_module, CompiledModule, EncodingMode, ModuleDecodeError, ModuleRepr,
};

fn module(bytes: &[u8]) -> CompiledModule {
    CompiledModule::new(bytes.to_vec())
}

fn default_ctx() -> TxContext {
    TxContext::new(vec![9, 9, 9])
}

fn built(
    stdlib: Vec<CompiledModule>,
    framework: Vec<CompiledModule>,
    extra: Vec<Vec<CompiledModule>>,
) -> sui_genesis::bundle::Genesis {
    Builder::new()
        .move_framework(String::from("stdlib/path"))
        .sui_framework(String::from("framework/path"))
        .add_move_modules(extra)
        .build(Ok(stdlib), Ok(framework), default_ctx())
        .unwrap()
}

#[test]
fn roundtrip() {
    let genesis = built(
        vec![module(&[1, 2, 3]), module(&[4, 5])],
        vec![module(&[6])],
        vec![],
    );
    let doc = encode_genesis(&genesis, EncodingMode::HumanReadable);
    let from_doc = decode_genesis(&doc, EncodingMode::HumanReadable).unwrap();
    assert_eq!(genesis, from_doc);
}

#[test]
fn roundtrip_binary_mode() {
    let genesis = Builder::new()
        .move_framework(String::from("a"))
        .sui_framework(String::from("b"))
        .add_move_modules(vec![vec![module(&[7, 8, 9])]])
        .add_object(Object::new(vec![10, 11]))
        .build(Ok(vec![module(&[1])]), Ok(vec![module(&[2])]), default_ctx())
        .unwrap();
    let doc = encode_genesis(&genesis, EncodingMode::Binary);
    let from_doc = decode_genesis(&doc, EncodingMode::Binary).unwrap();
    assert_eq!(genesis, from_doc);
}

#[test]
fn module_order_preserved() {
    let group = vec![module(&[1]), module(&[2]), module(&[3]), module(&[4])];
    for mode in [EncodingMode::Binary, EncodingMode::HumanReadable] {
        let reprs = sui_genesis::bundle::encode_module_group(&group, mode);
        let back = sui_genesis::bundle::decode_module_group(&reprs, mode).unwrap();
        assert_eq!(back, group);
    }
}

#[test]
fn group_order_fixed_under_interleaving() {
    let stdlib = vec![module(&[1]), module(&[2])];
    let framework = vec![module(&[3])];
    let extra1 = vec![module(&[4])];
    let extra2 = vec![module(&[5]), module(&[6])];
    let genesis = Builder::new()
        .add_object(Object::new(vec![100]))
        .sui_framework(String::from("framework"))
        .add_move_modules(vec![extra1.clone()])
        .genesis_ctx(TxContext::new(vec![200]))
        .move_framework(String::from("stdlib"))
        .add_object(Object::new(vec![101]))
        .add_move_modules(vec![extra2.clone()])
        .build(Ok(stdlib.clone()), Ok(framework.clone()), default_ctx())
        .unwrap();
    let expected = vec![stdlib, framework, extra1, extra2];
    assert_eq!(genesis.modules(), &expected);
}

#[test]
fn cross_mode_decoding_fails() {
    let m = module(&[1, 2, 3]);
    let text_repr = encode_module(&m, EncodingMode::HumanReadable);
    let bin_repr = encode_module(&m, EncodingMode::Binary);
    assert_eq!(
        decode_module(&text_repr, EncodingMode::Binary),
        Err(ModuleDecodeError::ModeMismatch)
    );
    assert_eq!(
        decode_module(&bin_repr, EncodingMode::HumanReadable),
        Err(ModuleDecodeError::ModeMismatch)
    );
}

#[test]
fn cross_mode_document_fails() {
    let genesis = built(vec![module(&[1])], vec![module(&[2])], vec![]);
    let text_doc = encode_genesis(&genesis, EncodingMode::HumanReadable);
    let err = decode_genesis(&text_doc, EncodingMode::Binary).unwrap_err();
    assert_eq!(err.kind, ModuleDecodeError::ModeMismatch);
    let bin_doc = encode_genesis(&genesis, EncodingMode::Binary);
    let err = decode_genesis(&bin_doc, EncodingMode::HumanReadable).unwrap_err();
    assert_eq!(err.kind, ModuleDecodeError::ModeMismatch);
}

#[test]
fn missing_sources_fail() {
    let r = Builder::new().build(Ok(vec![]), Ok(vec![]), default_ctx());
    assert_eq!(r.unwrap_err(), BuildError::SourceMissing(GroupKind::MoveStdlib));

    let r = Builder::new()
        .move_framework(String::from("stdlib"))
        .build(Ok(vec![]), Ok(vec![]), default_ctx());
    assert_eq!(r.unwrap_err(), BuildError::SourceMissing(GroupKind::SuiFramework));
}

#[test]
fn load_failure_is_reported() {
    let r = Builder::new()
        .move_framework(String::from("stdlib"))
        .sui_framework(String::from("framework"))
        .build(Err(String::from("no such directory")), Ok(vec![]), default_ctx());
    assert_eq!(
        r.unwrap_err(),
        BuildError::LoadFailure(GroupKind::MoveStdlib, String::from("no such directory"))
    );

    let r = Builder::new()
        .move_framework(String::from("stdlib"))
        .sui_framework(String::from("framework"))
        .build(Ok(vec![]), Err(String::from("bad bytecode")), default_ctx());
    assert_eq!(
        r.unwrap_err(),
        BuildError::LoadFailure(GroupKind::SuiFramework, String::from("bad bytecode"))
    );
}

#[test]
fn malformed_base64_is_rejected() {
    let repr = ModuleRepr::HumanReadable(String::from("!!!not base64!!!"));
    assert_eq!(
        decode_module(&repr, EncodingMode::HumanReadable),
        Err(ModuleDecodeError::MalformedBase64)
    );
}

#[test]
fn base64_known_vectors() {
    let r = encode_module(&module(&[0, 0, 0]), EncodingMode::HumanReadable);
    assert_eq!(r, ModuleRepr::HumanReadable(String::from("AAAA")));

    let r = encode_module(&module(b"hello"), EncodingMode::HumanReadable);
    assert_eq!(r, ModuleRepr::HumanReadable(String::from("aGVsbG8=")));

    let decoded = decode_module(
        &ModuleRepr::HumanReadable(String::from("aGVsbG8=")),
        EncodingMode::HumanReadable,
    )
    .unwrap();
    assert_eq!(decoded.bytes, b"hello".to_vec());
}

#[test]
fn empty_module_roundtrips() {
    let m = module(&[]);
    let repr = encode_module(&m, EncodingMode::HumanReadable);
    assert_eq!(repr, ModuleRepr::HumanReadable(String::new()));
    let back = decode_module(&repr, EncodingMode::HumanReadable).unwrap();
    assert_eq!(back, m);
}

#[test]
fn scenario_text_roundtrip_and_corruption() {
    let a = module(&[0xA1, 1]);
    let b = module(&[0xA1, 2]);
    let c = module(&[0xA1, 3]);
    let d = module(&[0xA1, 4]);
    let e = module(&[0xA1, 5]);
    let genesis = Builder::new()
        .move_framework(String::from("stdlib"))
        .sui_framework(String::from("framework"))
        .add_move_modules(vec![vec![d.clone(), e.clone()]])
        .build(
            Ok(vec![a.clone(), b.clone()]),
            Ok(vec![c.clone()]),
            default_ctx(),
        )
        .unwrap();
    let expected = vec![vec![a, b], vec![c], vec![d, e]];
    assert_eq!(genesis.modules(), &expected);
    assert!(genesis.objects().is_empty());

    let doc = encode_genesis(&genesis, EncodingMode::HumanReadable);
    let back = decode_genesis(&doc, EncodingMode::HumanReadable).unwrap();
    assert_eq!(back, genesis);

    // Corrupt one character of the base64 payload for `d`.
    let mut corrupted = doc;
    match &mut corrupted.module_groups[2][0] {
        ModuleRepr::HumanReadable(s) => {
            s.replace_range(0..1, "!");
        }
        ModuleRepr::Binary(_) => panic!("expected a human-readable leaf"),
    }
    let err = decode_genesis(&corrupted, EncodingMode::HumanReadable).unwrap_err();
    assert_eq!(err.group, 2);
    assert_eq!(err.index, 0);
    assert_eq!(err.kind, ModuleDecodeError::MalformedBase64);
}

#[test]
fn objects_and_context_are_preserved() {
    let o1 = Object::new(vec![1, 1]);
    let o2 = Object::new(vec![2, 2]);
    let o3 = Object::new(vec![3, 3]);
    let ctx = TxContext::new(vec![42]);
    let genesis = Builder::new()
        .move_framework(String::from("stdlib"))
        .sui_framework(String::from("framework"))
        .add_object(o1.clone())
        .add_objects(vec![o2.clone(), o3.clone()])
        .genesis_ctx(ctx.clone())
        .build(Ok(vec![]), Ok(vec![]), default_ctx())
        .unwrap();
    assert_eq!(genesis.objects(), &vec![o1, o2, o3]);
    assert_eq!(genesis.genesis_ctx(), &ctx);

    let doc = encode_genesis(&genesis, EncodingMode::HumanReadable);
    let back = decode_genesis(&doc, EncodingMode::HumanReadable).unwrap();
    assert_eq!(back.objects(), genesis.objects());
    assert_eq!(back.genesis_ctx(), genesis.genesis_ctx());
}

#[test]
fn default_context_used_when_not_set() {
    let genesis = Builder::new()
        .move_framework(String::from("stdlib"))
        .sui_framework(String::from("framework"))
        .build(Ok(vec![]), Ok(vec![]), TxContext::new(vec![7, 7]))
        .unwrap();
    assert_eq!(genesis.genesis_ctx(), &TxContext::new(vec![7, 7]));
}

#[test]
fn validators_are_not_written_into_the_bundle() {
    let with_validators = Builder::new()
        .move_framework(String::from("stdlib"))
        .sui_framework(String::from("framework"))
        .add_validator(PublicKeyBytes { bytes: vec![1; 32] }, 10)
        .add_validator(PublicKeyBytes { bytes: vec![2; 32] }, 20)
        .build(Ok(vec![module(&[1])]), Ok(vec![]), default_ctx())
        .unwrap();
    let without_validators = Builder::new()
        .move_framework(String::from("stdlib"))
        .sui_framework(String::from("framework"))
        .build(Ok(vec![module(&[1])]), Ok(vec![]), default_ctx())
        .unwrap();
    assert_eq!(with_validators, without_validators);
}

#[test]
fn decode_reports_first_failing_index() {
    let genesis = built(
        vec![module(&[1]), module(&[2])],
        vec![module(&[3]), module(&[4]), module(&[5])],
        vec![],
    );
    let mut doc = encode_genesis(&genesis, EncodingMode::HumanReadable);
    match &mut doc.module_groups[1][2] {
        ModuleRepr::HumanReadable(s) => {
            *s = String::from("****");
        }
        ModuleRepr::Binary(_) => panic!("expected a human-readable leaf"),
    }
    let err = decode_genesis(&doc, EncodingMode::HumanReadable).unwrap_err();
    assert_eq!(err.group, 1);
    assert_eq!(err.index, 2);
    assert_eq!(err.kind, ModuleDecodeError::MalformedBase64);
}

#[test]
fn document_built_by_hand_decodes() {
    // A human-readable document written directly, as a persisted file would
    // be read back: "AQ==" is the base64 of the single byte 1.
    let doc = GenesisDocument {
        module_groups: vec![vec![ModuleRepr::HumanReadable(String::from("AQ=="))]],
        objects: vec![vec![5, 6]],
        genesis_ctx: vec![7],
    };
    let g = decode_genesis(&doc, EncodingMode::HumanReadable).unwrap();
    assert_eq!(g.modules(), &vec![vec![module(&[1])]]);
    assert_eq!(g.objects(), &vec![Object::new(vec![5, 6])]);
    assert_eq!(g.genesis_ctx(), &TxContext::new(vec![7]));
}
