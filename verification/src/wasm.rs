//! Emitter for a minimal wasm module exporting a single two-argument
//! `run` function that adds its float parameters.
use vstd::prelude::*;
use vstd::string::StringExecFns;

use crate::bytecode::{
    EXPORT_FUNC, FUNC_TYPE, MODULE_MAGIC, MODULE_VERSION, OP_END, OP_F32_ADD, OP_LOCAL_GET,
    SECTION_CODE, SECTION_EXPORT, SECTION_FUNCTION, SECTION_TYPE, VAL_F32,
};
use crate::encoding::{
    encode_nested_vector, encode_section, encode_string, encode_vector, spec_encoded_nested_vector,
    spec_encoded_section, spec_encoded_string, spec_encoded_vector,
};
use crate::leb128::{encode_unsigned, spec_leb_unsigned};

verus! {

/// A generated module: the raw bytes of its binary encoding.
pub struct GenWasm {
    pub code: Vec<u8>,
}

/// The `(f32, f32) -> f32` function type of the generated module.
pub open spec fn spec_add_func_type() -> Seq<u8> {
    seq![FUNC_TYPE] + spec_encoded_vector(seq![VAL_F32, VAL_F32]) + spec_encoded_vector(
        seq![VAL_F32],
    )
}

/// The body of the exported function: read both locals, add, end.
pub open spec fn spec_add_func_body() -> Seq<u8> {
    seq![0x00u8, OP_LOCAL_GET] + spec_leb_unsigned(0) + seq![OP_LOCAL_GET] + spec_leb_unsigned(1)
        + seq![OP_F32_ADD, OP_END]
}

/// The whole module: magic, version, then the type, function, export and
/// code sections.
pub open spec fn spec_gen_wasm() -> Seq<u8> {
    MODULE_MAGIC@ + MODULE_VERSION@ + spec_encoded_section(
        SECTION_TYPE,
        spec_encoded_nested_vector(seq![spec_add_func_type()]),
    ) + spec_encoded_section(SECTION_FUNCTION, spec_encoded_vector(seq![0x00u8]))
        + spec_encoded_section(
        SECTION_EXPORT,
        spec_encoded_nested_vector(seq![spec_encoded_string("run"@) + seq![EXPORT_FUNC, 0x00u8]]),
    ) + spec_encoded_section(
        SECTION_CODE,
        spec_encoded_nested_vector(seq![spec_encoded_vector(spec_add_func_body())]),
    )
}

/// Emit the module that exports `run`, a function adding its two float
/// arguments.
pub fn aa_gen_wasm() -> (r: Vec<u8>)
    ensures
        r@ == spec_gen_wasm(),
{
    let mut add_func_type: Vec<u8> = vec![FUNC_TYPE];
    let params: Vec<u8> = vec![VAL_F32, VAL_F32];
    let ret_type: Vec<u8> = vec![VAL_F32];
    let ghost params_view = params@;
    let ghost ret_view = ret_type@;
    let mut encoded_params = encode_vector(params);
    add_func_type.append(&mut encoded_params);
    let mut encoded_ret = encode_vector(ret_type);
    add_func_type.append(&mut encoded_ret);
    proof {
        assert(params_view =~= seq![VAL_F32, VAL_F32]);
        assert(ret_view =~= seq![VAL_F32]);
        assert(add_func_type@ =~= spec_add_func_type());
    }

    let types: Vec<Vec<u8>> = vec![add_func_type];
    proof {
        assert(types.deep_view() =~~= seq![spec_add_func_type()]);
    }
    let type_contents = encode_nested_vector(types);
    let mut type_section = encode_section(SECTION_TYPE, type_contents);

    let func_index_vec: Vec<u8> = vec![0x00];
    proof {
        assert(func_index_vec@ =~= seq![0x00u8]);
    }
    let func_contents = encode_vector(func_index_vec);
    let mut func_section = encode_section(SECTION_FUNCTION, func_contents);

    let mut export_fn0: Vec<u8> = Vec::new();
    let run_name: String = String::from_str("run");
    proof {
        reveal_strlit("run");
        assert(vstd::utf8::is_ascii_chars(run_name@));
        vstd::utf8::is_ascii_chars_encode_utf8(run_name@);
    }
    let mut encoded_name = encode_string(run_name);
    export_fn0.append(&mut encoded_name);
    export_fn0.push(EXPORT_FUNC);
    export_fn0.push(0x00);  // function index
    proof {
        assert(export_fn0@ =~= spec_encoded_string("run"@) + seq![EXPORT_FUNC, 0x00u8]);
    }

    let all_exports: Vec<Vec<u8>> = vec![export_fn0];
    proof {
        assert(all_exports.deep_view() =~~= seq![
            spec_encoded_string("run"@) + seq![EXPORT_FUNC, 0x00u8],
        ]);
    }
    let export_contents = encode_nested_vector(all_exports);
    let mut export_section = encode_section(SECTION_EXPORT, export_contents);

    let mut code: Vec<u8> = Vec::new();
    code.push(OP_LOCAL_GET);
    let mut idx0 = encode_unsigned(0);
    code.append(&mut idx0);
    code.push(OP_LOCAL_GET);
    let mut idx1 = encode_unsigned(1);
    code.append(&mut idx1);
    code.push(OP_F32_ADD);

    let mut func0: Vec<u8> = Vec::new();
    func0.push(0x00);
    func0.append(&mut code);
    func0.push(OP_END);
    proof {
        assert(func0@ =~= spec_add_func_body());
    }

    let encoded_func0 = encode_vector(func0);
    let all_functions: Vec<Vec<u8>> = vec![encoded_func0];
    proof {
        assert(all_functions.deep_view() =~~= seq![spec_encoded_vector(spec_add_func_body())]);
    }
    let code_contents = encode_nested_vector(all_functions);
    let mut code_section = encode_section(SECTION_CODE, code_contents);

    let mut full_code: Vec<u8> = Vec::new();
    let mut i: usize = 0;
    while i < 4
        invariant
            i <= 4,
            full_code@ == MODULE_MAGIC@.take(i as int),
        decreases 4 - i,
    {
        full_code.push(MODULE_MAGIC[i]);
        assert(MODULE_MAGIC@.take(i + 1 as int) =~= MODULE_MAGIC@.take(i as int).push(
            MODULE_MAGIC@[i as int],
        ));
        i = i + 1;
    }
    let mut j: usize = 0;
    while j < 4
        invariant
            j <= 4,
            full_code@ == MODULE_MAGIC@ + MODULE_VERSION@.take(j as int),
        decreases 4 - j,
    {
        full_code.push(MODULE_VERSION[j]);
        assert(MODULE_VERSION@.take(j + 1 as int) =~= MODULE_VERSION@.take(j as int).push(
            MODULE_VERSION@[j as int],
        ));
        assert(full_code@.drop_last() + seq![MODULE_VERSION@[j as int]] =~= full_code@);
        assert((MODULE_MAGIC@ + MODULE_VERSION@.take(j as int)) + seq![MODULE_VERSION@[j as int]]
            =~= MODULE_MAGIC@ + MODULE_VERSION@.take(j + 1 as int));
        j = j + 1;
    }
    proof {
        assert(MODULE_MAGIC@.take(4) =~= MODULE_MAGIC@);
        assert(MODULE_VERSION@.take(4) =~= MODULE_VERSION@);
    }

    full_code.append(&mut type_section);
    full_code.append(&mut func_section);
    full_code.append(&mut export_section);
    full_code.append(&mut code_section);

    proof {
        assert(full_code@ =~= spec_gen_wasm());
    }
    full_code
}


/// The emitted module, byte for byte.
pub proof fn lemma_gen_wasm_bytes()
    ensures
        spec_gen_wasm() =~= seq![
            0x00u8, 0x61, 0x73, 0x6d, 0x01, 0x00, 0x00, 0x00, 0x01, 0x07, 0x01, 0x60, 0x02, 0x7d,
            0x7d, 0x01, 0x7d, 0x03, 0x02, 0x01, 0x00, 0x07, 0x07, 0x01, 0x03, 0x72, 0x75, 0x6e,
            0x00, 0x00, 0x0a, 0x09, 0x01, 0x07, 0x00, 0x20, 0x00, 0x20, 0x01, 0x92, 0x0b,
        ],
{
    reveal_strlit("run");
    assert(vstd::utf8::is_ascii_chars("run"@));
    vstd::utf8::is_ascii_chars_encode_utf8("run"@);
    let name_bytes = vstd::utf8::encode_utf8("run"@);
    assert(name_bytes =~= seq![0x72u8, 0x75, 0x6e]);
    assert(spec_encoded_string("run"@) =~= seq![0x03u8, 0x72, 0x75, 0x6e]);
    assert(spec_add_func_type() =~= seq![0x60u8, 0x02, 0x7d, 0x7d, 0x01, 0x7d]);
    assert(spec_add_func_body() =~= seq![0x00u8, 0x20, 0x00, 0x20, 0x01, 0x92, 0x0b]);
    lemma_flatten_singleton(spec_add_func_type());
    lemma_flatten_singleton(spec_encoded_string("run"@) + seq![EXPORT_FUNC, 0x00u8]);
    lemma_flatten_singleton(spec_encoded_vector(spec_add_func_body()));
}

/// Flattening a one-item list of byte strings yields that item.
proof fn lemma_flatten_singleton(s: Seq<u8>)
    ensures
        seq![s].flatten() =~= s,
{
    assert(seq![s].drop_first() =~= Seq::<Seq<u8>>::empty());
    assert(seq![s].flatten() == seq![s].first() + seq![s].drop_first().flatten());
    assert(Seq::<Seq<u8>>::empty().flatten() =~= Seq::<u8>::empty());
    assert(seq![s].first() + Seq::<u8>::empty() =~= s);
}

} // verus!
