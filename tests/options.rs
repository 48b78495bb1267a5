use oxc_boundary::options::{
    CodegenOptions, CompressOptions, EsTarget, MangleOptions, MinifyOptions, RawOption,
    ResolvedCodegen, ResolvedCompress, ResolvedMangle, ResolvedOptions,
};

fn defaults() -> ResolvedOptions {
    ResolvedOptions {
        compress: Some(ResolvedCompress {
            target: EsTarget::EsNext,
            drop_console: false,
            drop_debugger: true,
        }),
        mangle: Some(ResolvedMangle { top_level: false, debug: false }),
        codegen: Some(ResolvedCodegen { remove_whitespace: true }),
        sourcemap: false,
    }
}

#[test]
fn empty_configuration_resolves_to_defaults() {
    let r = MinifyOptions::default().resolve().unwrap();
    assert_eq!(r, defaults());
}

#[test]
fn compress_false_skips_compression_only() {
    let o = MinifyOptions { compress: RawOption::Flag(false), ..MinifyOptions::default() };
    let r = o.resolve().unwrap();
    assert_eq!(r.compress, None);
    assert_eq!(r.mangle, defaults().mangle);
    assert_eq!(r.codegen, defaults().codegen);
}

#[test]
fn absent_and_true_resolve_alike() {
    let a = MinifyOptions::default().resolve().unwrap();
    let b = MinifyOptions {
        compress: RawOption::Flag(true),
        mangle: RawOption::Flag(true),
        codegen: RawOption::Flag(true),
        sourcemap: None,
    }
    .resolve()
    .unwrap();
    assert_eq!(a, b);
}

#[test]
fn false_disables_every_stage_whatever_the_other_flags() {
    let o = MinifyOptions {
        compress: RawOption::Flag(false),
        mangle: RawOption::Flag(false),
        codegen: RawOption::Flag(false),
        sourcemap: Some(true),
    };
    let r = o.resolve().unwrap();
    assert_eq!(r.compress, None);
    assert_eq!(r.mangle, None);
    assert_eq!(r.codegen, None);
    assert!(r.sourcemap);
}

#[test]
fn detailed_records_merge_field_by_field() {
    let o = MinifyOptions {
        compress: RawOption::Detail(CompressOptions {
            target: Some("es2019".to_string()),
            drop_console: Some(true),
            drop_debugger: None,
        }),
        mangle: RawOption::Detail(MangleOptions { toplevel: Some(true), debug: None }),
        codegen: RawOption::Detail(CodegenOptions { remove_whitespace: None }),
        sourcemap: Some(true),
    };
    let r = o.resolve().unwrap();
    assert_eq!(
        r.compress,
        Some(ResolvedCompress { target: EsTarget::Es2019, drop_console: true, drop_debugger: true })
    );
    assert_eq!(r.mangle, Some(ResolvedMangle { top_level: true, debug: false }));
    assert_eq!(r.codegen, Some(ResolvedCodegen { remove_whitespace: true }));
    assert!(r.sourcemap);
}

#[test]
fn detailed_record_overrides_every_default() {
    let c = CompressOptions {
        target: Some("es2015".to_string()),
        drop_console: Some(false),
        drop_debugger: Some(false),
    };
    assert_eq!(
        c.resolve().unwrap(),
        ResolvedCompress { target: EsTarget::Es2015, drop_console: false, drop_debugger: false }
    );
    let m = MangleOptions { toplevel: Some(false), debug: Some(true) };
    assert_eq!(m.resolve(), ResolvedMangle { top_level: false, debug: true });
    let g = CodegenOptions { remove_whitespace: Some(false) };
    assert_eq!(g.resolve(), ResolvedCodegen { remove_whitespace: false });
}

#[test]
fn target_tags_ignore_ascii_case() {
    let c = CompressOptions { target: Some("ES2020".to_string()), drop_console: None, drop_debugger: None };
    assert_eq!(c.resolve().unwrap().target, EsTarget::Es2020);
    let c = CompressOptions { target: Some("es6".to_string()), drop_console: None, drop_debugger: None };
    assert_eq!(c.resolve().unwrap().target, EsTarget::Es2015);
    let c = CompressOptions { target: Some("EsNext".to_string()), drop_console: None, drop_debugger: None };
    assert_eq!(c.resolve().unwrap().target, EsTarget::EsNext);
}

#[test]
fn unknown_target_is_a_configuration_error() {
    let o = MinifyOptions {
        compress: RawOption::Detail(CompressOptions {
            target: Some("es1999".to_string()),
            drop_console: None,
            drop_debugger: None,
        }),
        ..MinifyOptions::default()
    };
    let e = o.resolve().unwrap_err();
    assert_eq!(e.field, "target");
    assert_eq!(e.value, "es1999");
    assert_eq!(e.message, "Invalid target \"es1999\".");
}

#[test]
fn es5_target_is_refused() {
    let c = CompressOptions { target: Some("es5".to_string()), drop_console: None, drop_debugger: None };
    let e = c.resolve().unwrap_err();
    assert_eq!(e.field, "target");
    assert_eq!(e.value, "es5");
    assert_eq!(e.message, "ES5 is not yet supported.");
}

#[test]
fn unknown_target_is_ignored_when_compression_is_off() {
    let o = MinifyOptions { compress: RawOption::Flag(false), ..MinifyOptions::default() };
    assert!(o.resolve().is_ok());
}

#[test]
fn option_record_defaults() {
    let c = CompressOptions::default();
    assert_eq!(c.target, None);
    assert_eq!(c.drop_console, None);
    assert_eq!(c.drop_debugger, Some(true));
    assert_eq!(CodegenOptions::default().remove_whitespace, Some(true));
    let m = MangleOptions::default();
    assert_eq!(m.toplevel, None);
    assert_eq!(m.debug, None);
}

#[test]
fn resolved_record_round_trips_through_bytes() {
    let records = [
        defaults(),
        ResolvedOptions { compress: None, mangle: None, codegen: None, sourcemap: true },
        ResolvedOptions {
            compress: Some(ResolvedCompress {
                target: EsTarget::Es2024,
                drop_console: true,
                drop_debugger: false,
            }),
            mangle: None,
            codegen: Some(ResolvedCodegen { remove_whitespace: false }),
            sourcemap: false,
        },
    ];
    for r in records {
        let bytes = r.to_bytes();
        assert_eq!(bytes.len(), 10);
        assert_eq!(ResolvedOptions::from_bytes(&bytes), Some(r));
    }
}

#[test]
fn record_encoding_is_exact() {
    assert_eq!(defaults().to_bytes(), vec![1, 12, 0, 1, 1, 0, 0, 1, 1, 0]);
}

#[test]
fn malformed_records_decode_to_none() {
    assert_eq!(ResolvedOptions::from_bytes(&[1, 2, 3]), None);
    assert_eq!(ResolvedOptions::from_bytes(&[1, 13, 0, 1, 1, 0, 0, 1, 1, 0]), None);
    assert_eq!(ResolvedOptions::from_bytes(&[0, 1, 0, 0, 1, 0, 0, 1, 1, 0]), None);
    assert_eq!(ResolvedOptions::from_bytes(&[1, 0, 2, 1, 1, 0, 0, 1, 1, 0]), None);
}
