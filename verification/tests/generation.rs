use javabind::callback_gen::callback_model;
use javabind::descriptor::{ArgDesc, FieldDesc, MethodDesc, StructDesc, TraitDesc, TypeDesc};
use javabind::error::GenError;
use javabind::mapper::{map_arg, map_field, map_return, transfer_type, HostType, Policy};
use javabind::render::{callback_source, struct_source};
use javabind::render_service::service_source;
use javabind::service_gen::{service_model, ArgConv, RetConv};
use javabind::struct_gen::struct_model;

fn point_desc() -> StructDesc {
    StructDesc {
        name: "Point".to_string(),
        fields: vec![
            FieldDesc { name: "x".to_string(), ty: TypeDesc::Int },
            FieldDesc { name: "y".to_string(), ty: TypeDesc::Int },
        ],
    }
}

#[test]
fn struct_model_lists_fields_in_order() {
    let m = struct_model(&point_desc()).unwrap();
    assert_eq!(m.name, "Point");
    assert_eq!(m.fields.len(), 2);
    assert_eq!(m.fields[0].name, "x");
    assert!(matches!(m.fields[0].host, HostType::Int));
    assert_eq!(m.fields[1].name, "y");
    assert!(matches!(m.fields[1].host, HostType::Int));
}

#[test]
fn point_value_type_source() {
    let out = struct_source(&point_desc(), "com.example").unwrap();
    assert!(out.contains("package com.example;"));
    assert!(out.contains("import java.io.Serializable;"));
    assert!(out.contains("public class Point implements Serializable {"));
    assert!(out.contains("public int x;"));
    assert!(out.contains("public int y;"));
    let ix = out.find("public int x;").unwrap();
    let iy = out.find("public int y;").unwrap();
    assert!(ix < iy);
    // no other members
    assert!(!out.contains("void"));
    assert!(!out.contains("static"));
}

#[test]
fn struct_void_field_is_unsupported() {
    let desc = StructDesc {
        name: "Bad".to_string(),
        fields: vec![
            FieldDesc { name: "ok".to_string(), ty: TypeDesc::Long },
            FieldDesc { name: "nope".to_string(), ty: TypeDesc::Void },
        ],
    };
    let e = struct_model(&desc).unwrap_err();
    assert_eq!(e, GenError::UnsupportedShape("nope".to_string()));
}

#[test]
fn mapper_table() {
    let bool_field = map_field(&TypeDesc::Boolean, "f").unwrap();
    assert!(matches!(bool_field.policy, Policy::Direct));
    let bool_arg = map_arg(&TypeDesc::Boolean, "a", true).unwrap();
    assert!(matches!(bool_arg.policy, Policy::BooleanAsInt));

    let bytes = map_arg(&TypeDesc::List(Box::new(TypeDesc::Byte)), "b", true).unwrap();
    assert!(matches!(bytes.policy, Policy::RawBytes));
    assert!(matches!(bytes.host, HostType::Array(_)));

    let structs = map_arg(
        &TypeDesc::List(Box::new(TypeDesc::Struct("Point".to_string()))),
        "s",
        true,
    )
    .unwrap();
    assert!(matches!(structs.policy, Policy::StructArray));

    let ints = map_return(&TypeDesc::List(Box::new(TypeDesc::Int)), "m").unwrap();
    assert!(matches!(ints.policy, Policy::BoxedListViaText));
    assert!(matches!(ints.host, HostType::BoxedArray(_)));

    let nested = map_return(
        &TypeDesc::List(Box::new(TypeDesc::List(Box::new(TypeDesc::Int)))),
        "m",
    )
    .unwrap();
    assert!(matches!(nested.policy, Policy::BoxedListViaText));

    let bad = map_return(&TypeDesc::List(Box::new(TypeDesc::Void)), "m").unwrap_err();
    assert_eq!(bad, GenError::UnsupportedShape("m".to_string()));
}

#[test]
fn boundary_transfer_types() {
    assert!(matches!(transfer_type(&TypeDesc::Boolean), HostType::Int));
    assert!(matches!(
        transfer_type(&TypeDesc::Callback("OnDone".to_string())),
        HostType::Long
    ));
    assert!(matches!(
        transfer_type(&TypeDesc::List(Box::new(TypeDesc::Byte))),
        HostType::Array(_)
    ));
    assert!(matches!(
        transfer_type(&TypeDesc::List(Box::new(TypeDesc::Int))),
        HostType::Text
    ));
    assert!(matches!(transfer_type(&TypeDesc::Long), HostType::Long));
    assert!(matches!(transfer_type(&TypeDesc::Str), HostType::Text));
}

#[test]
fn callback_interface_source() {
    let desc = TraitDesc {
        name: "OnDone".to_string(),
        methods: vec![MethodDesc {
            name: "done".to_string(),
            return_ty: TypeDesc::Void,
            args: vec![
                ArgDesc { name: "code".to_string(), ty: TypeDesc::Int },
                ArgDesc { name: "msg".to_string(), ty: TypeDesc::Str },
            ],
        }],
    };
    let m = callback_model(&desc).unwrap();
    assert_eq!(m.name, "OnDone");
    assert_eq!(m.methods.len(), 1);
    assert_eq!(m.methods[0].params.len(), 2);

    let out = callback_source(&desc, "com.example").unwrap();
    assert!(out.contains("public interface OnDone extends Serializable {"));
    assert!(out.contains("void done(int code, String msg);"));
}

#[test]
fn callback_struct_list_arg_renders_as_array() {
    let desc = TraitDesc {
        name: "OnItems".to_string(),
        methods: vec![MethodDesc {
            name: "deliver".to_string(),
            return_ty: TypeDesc::Void,
            args: vec![ArgDesc {
                name: "items".to_string(),
                ty: TypeDesc::List(Box::new(TypeDesc::Struct("Point".to_string()))),
            }],
        }],
    };
    let out = callback_source(&desc, "com.example").unwrap();
    assert!(out.contains("void deliver(Point[] items);"));
}

#[test]
fn callback_void_arg_is_unsupported() {
    let desc = TraitDesc {
        name: "OnDone".to_string(),
        methods: vec![MethodDesc {
            name: "done".to_string(),
            return_ty: TypeDesc::Void,
            args: vec![ArgDesc { name: "ph".to_string(), ty: TypeDesc::Void }],
        }],
    };
    let e = callback_model(&desc).unwrap_err();
    assert_eq!(e, GenError::UnsupportedShape("ph".to_string()));
}

fn sum_service() -> TraitDesc {
    TraitDesc {
        name: "Calc".to_string(),
        methods: vec![MethodDesc {
            name: "sum".to_string(),
            return_ty: TypeDesc::Int,
            args: vec![ArgDesc {
                name: "items".to_string(),
                ty: TypeDesc::List(Box::new(TypeDesc::Int)),
            }],
        }],
    }
}

#[test]
fn sum_facade_encodes_and_returns_directly() {
    let m = service_model(&sum_service(), "calc", "", &Vec::new()).unwrap();
    assert_eq!(m.methods.len(), 1);
    let fm = &m.methods[0];
    assert_eq!(fm.name, "sum");
    assert!(matches!(fm.ret, HostType::Int));
    assert!(matches!(fm.ret_conv, RetConv::Direct));
    assert_eq!(fm.args.len(), 1);
    assert!(matches!(fm.args[0].conv, ArgConv::EncodeText));

    let out = service_source(&sum_service(), "calc", "", &Vec::new(), "com.example").unwrap();
    assert!(out.contains("System.loadLibrary(\"calc\");"));
    assert!(out.contains("String r_items = JSON.toJSONString(items);"));
    assert!(out.contains("int ret = native_sum(r_items);"));
    assert!(out.contains("return ret;"));
    assert!(out.contains("import com.alibaba.fastjson.JSON;"));
}

fn register_service() -> TraitDesc {
    TraitDesc {
        name: "Svc".to_string(),
        methods: vec![MethodDesc {
            name: "register".to_string(),
            return_ty: TypeDesc::Void,
            args: vec![ArgDesc {
                name: "cb".to_string(),
                ty: TypeDesc::Callback("OnDone".to_string()),
            }],
        }],
    }
}

fn on_done() -> TraitDesc {
    TraitDesc { name: "OnDone".to_string(), methods: vec![] }
}

#[test]
fn register_facade_allocates_stores_and_calls() {
    let callbacks = vec![on_done()];
    let m = service_model(&register_service(), "svc", "", &callbacks).unwrap();
    let fm = &m.methods[0];
    assert!(matches!(fm.args[0].conv, ArgConv::RegisterCallback));
    assert!(matches!(fm.ret_conv, RetConv::Nothing));
    assert_eq!(m.used_callbacks, vec!["OnDone".to_string()]);

    let out = service_source(&register_service(), "svc", "", &callbacks, "com.example")
        .unwrap();
    assert!(out.contains("long cb_callback_index = globalIndex.incrementAndGet();"));
    assert!(out.contains("globalCallbacks.put(cb_callback_index, cb);"));
    assert!(out.contains("long r_cb = cb_callback_index;"));
    assert!(out.contains("native_register(r_cb);"));
    assert!(!out.contains("return"));
}

#[test]
fn unresolved_callback_is_an_error_never_skipped() {
    let e = service_model(&register_service(), "svc", "", &Vec::new()).unwrap_err();
    assert_eq!(e, GenError::UnresolvedCallback("OnDone".to_string()));
}

#[test]
fn facade_drops_void_placeholder_args() {
    let desc = TraitDesc {
        name: "Svc".to_string(),
        methods: vec![MethodDesc {
            name: "go".to_string(),
            return_ty: TypeDesc::Void,
            args: vec![
                ArgDesc { name: "a".to_string(), ty: TypeDesc::Long },
                ArgDesc { name: "ph".to_string(), ty: TypeDesc::Void },
                ArgDesc { name: "b".to_string(), ty: TypeDesc::Boolean },
            ],
        }],
    };
    let m = service_model(&desc, "svc", "", &Vec::new()).unwrap();
    let fm = &m.methods[0];
    assert_eq!(fm.args.len(), 2);
    assert_eq!(fm.args[0].name, "a");
    assert_eq!(fm.args[1].name, "b");
    assert!(matches!(fm.args[1].conv, ArgConv::BoolToInt));

    let out = service_source(&desc, "svc", "", &Vec::new(), "com.example").unwrap();
    assert!(out.contains("public static void go(long a, boolean b) {"));
    assert!(out.contains("int r_b = b ? 1 : 0;"));
    assert!(out.contains("native_go(r_a, r_b);"));
}

#[test]
fn extra_libraries_load_in_declared_order_primary_first() {
    let svc = TraitDesc { name: "Svc".to_string(), methods: vec![] };
    let m = service_model(&svc, "main", "extra1,extra2", &Vec::new()).unwrap();
    assert_eq!(
        m.libs,
        vec!["main".to_string(), "extra1".to_string(), "extra2".to_string()]
    );
    let out = service_source(&svc, "main", "extra1,extra2", &Vec::new(), "com.example")
        .unwrap();
    let a = out.find("System.loadLibrary(\"main\");").unwrap();
    let b = out.find("System.loadLibrary(\"extra1\");").unwrap();
    let c = out.find("System.loadLibrary(\"extra2\");").unwrap();
    assert!(a < b && b < c);
}

#[test]
fn no_extra_libraries_loads_primary_alone() {
    let svc = TraitDesc { name: "Svc".to_string(), methods: vec![] };
    let m = service_model(&svc, "main", "", &Vec::new()).unwrap();
    assert_eq!(m.libs, vec!["main".to_string()]);
}

#[test]
fn referenced_callbacks_are_collected_once() {
    let desc = TraitDesc {
        name: "Svc".to_string(),
        methods: vec![
            MethodDesc {
                name: "one".to_string(),
                return_ty: TypeDesc::Void,
                args: vec![ArgDesc {
                    name: "cb".to_string(),
                    ty: TypeDesc::Callback("OnDone".to_string()),
                }],
            },
            MethodDesc {
                name: "two".to_string(),
                return_ty: TypeDesc::Void,
                args: vec![ArgDesc {
                    name: "again".to_string(),
                    ty: TypeDesc::Callback("OnDone".to_string()),
                }],
            },
        ],
    };
    let callbacks = vec![on_done()];
    let m = service_model(&desc, "svc", "", &callbacks).unwrap();
    assert_eq!(m.used_callbacks, vec!["OnDone".to_string()]);
}

#[test]
fn facade_exposes_free_callback() {
    let svc = TraitDesc { name: "Svc".to_string(), methods: vec![] };
    let out = service_source(&svc, "svc", "", &Vec::new(), "com.example").unwrap();
    assert!(out.contains("public static void free_callback(long index) {"));
    assert!(out.contains("globalCallbacks.remove(index);"));
    assert!(out.contains("private static AtomicLong globalIndex = new AtomicLong(0);"));
    assert!(out.contains(
        "private static ConcurrentHashMap<Long, Object> globalCallbacks = new ConcurrentHashMap<>();"
    ));
    assert!(out.contains("import java.util.concurrent.atomic.AtomicLong;"));
    assert!(out.contains("import java.util.concurrent.ConcurrentHashMap;"));
}

#[test]
fn list_return_is_decoded_into_array() {
    let desc = TraitDesc {
        name: "Svc".to_string(),
        methods: vec![MethodDesc {
            name: "echo".to_string(),
            return_ty: TypeDesc::List(Box::new(TypeDesc::Int)),
            args: vec![ArgDesc {
                name: "items".to_string(),
                ty: TypeDesc::List(Box::new(TypeDesc::Int)),
            }],
        }],
    };
    let out = service_source(&desc, "svc", "", &Vec::new(), "com.example").unwrap();
    assert!(out.contains("Integer[] ret = native_echo(r_items);"));
    assert!(out.contains("List<Integer> list = JSON.parseArray(ret, Integer.class);"));
    assert!(out.contains("Integer[] array = new Integer[list.size()];"));
    assert!(out.contains("return list.toArray(array);"));
    assert!(out.contains("import java.util.List;"));
}

#[test]
fn byte_list_passes_through_raw() {
    let desc = TraitDesc {
        name: "Svc".to_string(),
        methods: vec![MethodDesc {
            name: "digest".to_string(),
            return_ty: TypeDesc::List(Box::new(TypeDesc::Byte)),
            args: vec![ArgDesc {
                name: "data".to_string(),
                ty: TypeDesc::List(Box::new(TypeDesc::Byte)),
            }],
        }],
    };
    let m = service_model(&desc, "svc", "", &Vec::new()).unwrap();
    assert!(matches!(m.methods[0].args[0].conv, ArgConv::Direct));
    assert!(matches!(m.methods[0].ret_conv, RetConv::Direct));
    let out = service_source(&desc, "svc", "", &Vec::new(), "com.example").unwrap();
    assert!(out.contains("byte[] r_data = data;"));
    assert!(out.contains("byte[] ret = native_digest(r_data);"));
    assert!(out.contains("return ret;"));
}

#[test]
fn struct_array_returns_unchanged() {
    let desc = TraitDesc {
        name: "Svc".to_string(),
        methods: vec![MethodDesc {
            name: "all".to_string(),
            return_ty: TypeDesc::List(Box::new(TypeDesc::Struct("Point".to_string()))),
            args: vec![],
        }],
    };
    let m = service_model(&desc, "svc", "", &Vec::new()).unwrap();
    assert!(matches!(m.methods[0].ret_conv, RetConv::Direct));
    let out = service_source(&desc, "svc", "", &Vec::new(), "com.example").unwrap();
    assert!(out.contains("Point[] ret = native_all();"));
    assert!(out.contains("return ret;"));
    // Point lives in the unit's own package, so no import line is emitted
    assert!(!out.contains("import com.example.Point;"));
}

#[test]
fn service_void_in_list_names_the_argument() {
    let desc = TraitDesc {
        name: "Svc".to_string(),
        methods: vec![MethodDesc {
            name: "go".to_string(),
            return_ty: TypeDesc::Void,
            args: vec![ArgDesc {
                name: "weird".to_string(),
                ty: TypeDesc::List(Box::new(TypeDesc::Void)),
            }],
        }],
    };
    let e = service_model(&desc, "svc", "", &Vec::new()).unwrap_err();
    assert_eq!(e, GenError::UnsupportedShape("weird".to_string()));
}
