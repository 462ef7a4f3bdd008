use jadis::access_flags::{
    ClassAccessFlags, FieldAccessFlags, Flags, MethodAccessFlags, MethodParameterAccessFlags,
    ModuleExportsFlags, ModuleFlags, ModuleOpensFlags, ModuleRequiresFlags, NestedClassAccessFlags,
};

#[test]
fn access_flags_test_class_access_flag_public() {
    assert_eq!(
        ClassAccessFlags::from_u16(0x0001)[0],
        ClassAccessFlags::AccPublic,
        "Incorrect access flag returned"
    );
}

#[test]
fn access_flags_test_class_access_flag_final() {
    assert_eq!(
        ClassAccessFlags::from_u16(0x0010)[0],
        ClassAccessFlags::AccFinal,
        "Incorrect access flag returned"
    );
}

#[test]
fn access_flags_test_class_access_flag_super() {
    assert_eq!(
        ClassAccessFlags::from_u16(0x0020)[0],
        ClassAccessFlags::AccSuper,
        "Incorrect access flag returned"
    );
}

#[test]
fn access_flags_test_class_access_flag_interface() {
    assert_eq!(
        ClassAccessFlags::from_u16(0x0200)[0],
        ClassAccessFlags::AccInterface,
        "Incorrect access flag returned"
    );
}

#[test]
fn access_flags_test_class_access_flag_abstract() {
    assert_eq!(
        ClassAccessFlags::from_u16(0x0400)[0],
        ClassAccessFlags::AccAbstract,
        "Incorrect access flag returned"
    );
}

#[test]
fn access_flags_test_class_access_flag_synthetic() {
    assert_eq!(
        ClassAccessFlags::from_u16(0x1000)[0],
        ClassAccessFlags::AccSynthetic,
        "Incorrect access flag returned"
    );
}

#[test]
fn access_flags_test_class_access_flag_annotation() {
    assert_eq!(
        ClassAccessFlags::from_u16(0x2000)[0],
        ClassAccessFlags::AccAnnotation,
        "Incorrect access flag returned"
    );
}

#[test]
fn access_flags_test_class_access_flag_enum() {
    assert_eq!(
        ClassAccessFlags::from_u16(0x4000)[0],
        ClassAccessFlags::AccEnum,
        "Incorrect access flag returned"
    );
}

#[test]
fn access_flags_test_class_access_flag_module() {
    assert_eq!(
        ClassAccessFlags::from_u16(0x8000)[0],
        ClassAccessFlags::AccModule,
        "Incorrect access flag returned"
    );
}

#[test]
fn access_flags_test_class_access_multiple_flags() {
    assert_eq!(
        ClassAccessFlags::from_u16(0x4420),
        vec![
            ClassAccessFlags::AccSuper,
            ClassAccessFlags::AccAbstract,
            ClassAccessFlags::AccEnum
        ],
        "Incorrect access flags returned"
    );
}

#[test]
fn access_flags_test_field_access_flag_public() {
    assert_eq!(
        FieldAccessFlags::from_u16(0x0001)[0],
        FieldAccessFlags::AccPublic,
        "Incorrect access flag returned"
    );
}

#[test]
fn access_flags_test_field_access_flag_final() {
    assert_eq!(
        FieldAccessFlags::from_u16(0x0002)[0],
        FieldAccessFlags::AccPrivate,
        "Incorrect access flag returned"
    );
}

#[test]
fn access_flags_test_field_access_flag_super() {
    assert_eq!(
        FieldAccessFlags::from_u16(0x0004)[0],
        FieldAccessFlags::AccProtected,
        "Incorrect access flag returned"
    );
}

#[test]
fn access_flags_test_field_access_flag_interface() {
    assert_eq!(
        FieldAccessFlags::from_u16(0x0008)[0],
        FieldAccessFlags::AccStatic,
        "Incorrect access flag returned"
    );
}

#[test]
fn access_flags_test_field_access_flag_abstract() {
    assert_eq!(
        FieldAccessFlags::from_u16(0x0010)[0],
        FieldAccessFlags::AccFinal,
        "Incorrect access flag returned"
    );
}

#[test]
fn access_flags_test_field_access_flag_synthetic() {
    assert_eq!(
        FieldAccessFlags::from_u16(0x0040)[0],
        FieldAccessFlags::AccVolatile,
        "Incorrect access flag returned"
    );
}

#[test]
fn access_flags_test_field_access_flag_annotation() {
    assert_eq!(
        FieldAccessFlags::from_u16(0x0080)[0],
        FieldAccessFlags::AccTransient,
        "Incorrect access flag returned"
    );
}

#[test]
fn access_flags_test_field_access_flag_enum() {
    assert_eq!(
        FieldAccessFlags::from_u16(0x1000)[0],
        FieldAccessFlags::AccSynthetic,
        "Incorrect access flag returned"
    );
}

#[test]
fn access_flags_test_field_access_flag_module() {
    assert_eq!(
        FieldAccessFlags::from_u16(0x4000)[0],
        FieldAccessFlags::AccEnum,
        "Incorrect access flag returned"
    );
}

#[test]
fn access_flags_test_field_access_multiple_flags() {
    assert_eq!(
        FieldAccessFlags::from_u16(0x5082),
        vec![
            FieldAccessFlags::AccPrivate,
            FieldAccessFlags::AccTransient,
            FieldAccessFlags::AccSynthetic,
            FieldAccessFlags::AccEnum
        ],
        "Incorrect access flags returned"
    );
}

#[test]
fn test_method_access_flag_public() {
    assert_eq!(
        MethodAccessFlags::from_u16(0x0001)[0],
        MethodAccessFlags::AccPublic,
        "Incorrect access flag returned"
    );
}

#[test]
fn test_method_access_flag_private() {
    assert_eq!(
        MethodAccessFlags::from_u16(0x0002)[0],
        MethodAccessFlags::AccPrivate,
        "Incorrect access flag returned"
    );
}

#[test]
fn test_method_access_flag_protected() {
    assert_eq!(
        MethodAccessFlags::from_u16(0x0004)[0],
        MethodAccessFlags::AccProtected,
        "Incorrect access flag returned"
    );
}

#[test]
fn test_method_access_flag_static() {
    assert_eq!(
        MethodAccessFlags::from_u16(0x0008)[0],
        MethodAccessFlags::AccStatic,
        "Incorrect access flag returned"
    );
}

#[test]
fn test_method_access_flag_final() {
    assert_eq!(
        MethodAccessFlags::from_u16(0x0010)[0],
        MethodAccessFlags::AccFinal,
        "Incorrect access flag returned"
    );
}

#[test]
fn test_method_access_flag_synchronized() {
    assert_eq!(
        MethodAccessFlags::from_u16(0x0020)[0],
        MethodAccessFlags::AccSynchronized,
        "Incorrect access flag returned"
    );
}

#[test]
fn test_method_access_flag_bridge() {
    assert_eq!(
        MethodAccessFlags::from_u16(0x0040)[0],
        MethodAccessFlags::AccBridge,
        "Incorrect access flag returned"
    );
}

#[test]
fn test_method_access_flag_varargs() {
    assert_eq!(
        MethodAccessFlags::from_u16(0x0080)[0],
        MethodAccessFlags::AccVarArgs,
        "Incorrect access flag returned"
    );
}

#[test]
fn test_method_access_flag_native() {
    assert_eq!(
        MethodAccessFlags::from_u16(0x0100)[0],
        MethodAccessFlags::AccNative,
        "Incorrect access flag returned"
    );
}

#[test]
fn test_method_access_flag_abstract() {
    assert_eq!(
        MethodAccessFlags::from_u16(0x0400)[0],
        MethodAccessFlags::AccAbstract,
        "Incorrect access flag returned"
    );
}

#[test]
fn test_method_access_flag_strict() {
    assert_eq!(
        MethodAccessFlags::from_u16(0x0800)[0],
        MethodAccessFlags::AccStrict,
        "Incorrect access flag returned"
    );
}

#[test]
fn test_method_access_flag_synthetic() {
    assert_eq!(
        MethodAccessFlags::from_u16(0x1000)[0],
        MethodAccessFlags::AccSynthetic,
        "Incorrect access flag returned"
    );
}

#[test]
fn test_method_access_multiple_flags() {
    assert_eq!(
        MethodAccessFlags::from_u16(0x1533),
        vec![
            MethodAccessFlags::AccPublic,
            MethodAccessFlags::AccPrivate,
            MethodAccessFlags::AccFinal,
            MethodAccessFlags::AccSynchronized,
            MethodAccessFlags::AccNative,
            MethodAccessFlags::AccAbstract,
            MethodAccessFlags::AccSynthetic,
        ],
        "Incorrect access flags returned"
    );
}

#[test]
fn access_flags_test_nested_class_access_flag_public() {
    assert_eq!(
        NestedClassAccessFlags::from_u16(0x0001)[0],
        NestedClassAccessFlags::AccPublic,
        "Incorrect access flag returned"
    );
}

#[test]
fn access_flags_test_nested_class_access_flag_private() {
    assert_eq!(
        NestedClassAccessFlags::from_u16(0x0002)[0],
        NestedClassAccessFlags::AccPrivate,
        "Incorrect access flag returned"
    );
}

#[test]
fn access_flags_test_nested_class_access_flag_protected() {
    assert_eq!(
        NestedClassAccessFlags::from_u16(0x0004)[0],
        NestedClassAccessFlags::AccProtected,
        "Incorrect access flag returned"
    );
}

#[test]
fn access_flags_test_nested_class_access_flag_static() {
    assert_eq!(
        NestedClassAccessFlags::from_u16(0x0008)[0],
        NestedClassAccessFlags::AccStatic,
        "Incorrect access flag returned"
    );
}

#[test]
fn access_flags_test_nested_class_access_flag_final() {
    assert_eq!(
        NestedClassAccessFlags::from_u16(0x0010)[0],
        NestedClassAccessFlags::AccFinal,
        "Incorrect access flag returned"
    );
}

#[test]
fn access_flags_test_nested_class_access_flag_synchronized() {
    assert_eq!(
        NestedClassAccessFlags::from_u16(0x0200)[0],
        NestedClassAccessFlags::AccInterface,
        "Incorrect access flag returned"
    );
}

#[test]
fn access_flags_test_nested_class_access_flag_bridge() {
    assert_eq!(
        NestedClassAccessFlags::from_u16(0x0400)[0],
        NestedClassAccessFlags::AccAbstract,
        "Incorrect access flag returned"
    );
}

#[test]
fn access_flags_test_nested_class_access_flag_varargs() {
    assert_eq!(
        NestedClassAccessFlags::from_u16(0x1000)[0],
        NestedClassAccessFlags::AccSynthetic,
        "Incorrect access flag returned"
    );
}

#[test]
fn access_flags_test_nested_class_access_flag_native() {
    assert_eq!(
        NestedClassAccessFlags::from_u16(0x2000)[0],
        NestedClassAccessFlags::AccAnnotation,
        "Incorrect access flag returned"
    );
}

#[test]
fn access_flags_test_nested_class_access_flag_abstract() {
    assert_eq!(
        NestedClassAccessFlags::from_u16(0x4000)[0],
        NestedClassAccessFlags::AccEnum,
        "Incorrect access flag returned"
    );
}

#[test]
fn access_flags_test_nested_class_access_multiple_flags() {
    assert_eq!(
        NestedClassAccessFlags::from_u16(0x7617),
        vec![
            NestedClassAccessFlags::AccPublic,
            NestedClassAccessFlags::AccPrivate,
            NestedClassAccessFlags::AccProtected,
            NestedClassAccessFlags::AccFinal,
            NestedClassAccessFlags::AccInterface,
            NestedClassAccessFlags::AccAbstract,
            NestedClassAccessFlags::AccSynthetic,
            NestedClassAccessFlags::AccAnnotation,
            NestedClassAccessFlags::AccEnum,
        ],
        "Incorrect access flags returned"
    );
}

#[test]
fn access_flags_test_method_parameter_access_flag_final() {
    assert_eq!(
        MethodParameterAccessFlags::from_u16(0x0010)[0],
        MethodParameterAccessFlags::AccFinal,
        "Incorrect access flag returned"
    );
}

#[test]
fn access_flags_test_method_parameter_access_flag_synthetic() {
    assert_eq!(
        MethodParameterAccessFlags::from_u16(0x1000)[0],
        MethodParameterAccessFlags::AccSynthetic,
        "Incorrect access flag returned"
    );
}

#[test]
fn access_flags_test_method_parameter_access_flag_mandated() {
    assert_eq!(
        MethodParameterAccessFlags::from_u16(0x8000)[0],
        MethodParameterAccessFlags::AccMandated,
        "Incorrect access flag returned"
    );
}

#[test]
fn access_flags_test_method_parameter_access_multiple_flags() {
    assert_eq!(
        MethodParameterAccessFlags::from_u16(0x9010),
        vec![
            MethodParameterAccessFlags::AccFinal,
            MethodParameterAccessFlags::AccSynthetic,
            MethodParameterAccessFlags::AccMandated
        ],
        "Incorrect access flags returned"
    );
}

#[test]
fn access_flags_test_module_access_flag_open() {
    assert_eq!(
        ModuleFlags::from_u16(0x0020)[0],
        ModuleFlags::AccOpen,
        "Incorrect access flag returned"
    );
}

#[test]
fn access_flags_test_module_access_flag_synthetic() {
    assert_eq!(
        ModuleFlags::from_u16(0x1000)[0],
        ModuleFlags::AccSynthetic,
        "Incorrect access flag returned"
    );
}

#[test]
fn access_flags_test_module_access_flag_mandated() {
    assert_eq!(
        ModuleFlags::from_u16(0x8000)[0],
        ModuleFlags::AccMandated,
        "Incorrect access flag returned"
    );
}

#[test]
fn access_flags_test_module_access_multiple_flags() {
    assert_eq!(
        ModuleFlags::from_u16(0x9020),
        vec![
            ModuleFlags::AccOpen,
            ModuleFlags::AccSynthetic,
            ModuleFlags::AccMandated
        ],
        "Incorrect access flags returned"
    );
}

#[test]
fn access_flags_test_module_requires_access_flag_transitive() {
    assert_eq!(
        ModuleRequiresFlags::from_u16(0x0020)[0],
        ModuleRequiresFlags::AccTransitive,
        "Incorrect access flag returned"
    );
}

#[test]
fn access_flags_test_module_requires_access_flag_static_phase() {
    assert_eq!(
        ModuleRequiresFlags::from_u16(0x0040)[0],
        ModuleRequiresFlags::AccStaticPhase,
        "Incorrect access flag returned"
    );
}

#[test]
fn access_flags_test_module_requires_access_flag_synthetic() {
    assert_eq!(
        ModuleRequiresFlags::from_u16(0x1000)[0],
        ModuleRequiresFlags::AccSynthetic,
        "Incorrect access flag returned"
    );
}

#[test]
fn access_flags_test_module_requires_access_flag_mandated() {
    assert_eq!(
        ModuleRequiresFlags::from_u16(0x8000)[0],
        ModuleRequiresFlags::AccMandated,
        "Incorrect access flag returned"
    );
}

#[test]
fn access_flags_test_module_requires_access_multiple_flags() {
    assert_eq!(
        ModuleRequiresFlags::from_u16(0x9060),
        vec![
            ModuleRequiresFlags::AccTransitive,
            ModuleRequiresFlags::AccStaticPhase,
            ModuleRequiresFlags::AccSynthetic,
            ModuleRequiresFlags::AccMandated
        ],
        "Incorrect access flags returned"
    );
}

#[test]
fn access_flags_test_module_exports_access_flag_synthetic() {
    assert_eq!(
        ModuleExportsFlags::from_u16(0x1000)[0],
        ModuleExportsFlags::AccSynthetic,
        "Incorrect access flag returned"
    );
}

#[test]
fn access_flags_test_module_exports_access_flag_mandated() {
    assert_eq!(
        ModuleExportsFlags::from_u16(0x8000)[0],
        ModuleExportsFlags::AccMandated,
        "Incorrect access flag returned"
    );
}

#[test]
fn access_flags_test_module_exports_access_multiple_flags() {
    assert_eq!(
        ModuleExportsFlags::from_u16(0x9000),
        vec![
            ModuleExportsFlags::AccSynthetic,
            ModuleExportsFlags::AccMandated
        ],
        "Incorrect access flags returned"
    );
}

#[test]
fn access_flags_test_module_opens_access_flag_synthetic() {
    assert_eq!(
        ModuleOpensFlags::from_u16(0x1000)[0],
        ModuleOpensFlags::AccSynthetic,
        "Incorrect access flag returned"
    );
}

#[test]
fn access_flags_test_module_opens_access_flag_mandated() {
    assert_eq!(
        ModuleOpensFlags::from_u16(0x8000)[0],
        ModuleOpensFlags::AccMandated,
        "Incorrect access flag returned"
    );
}

#[test]
fn access_flags_test_module_opens_access_multiple_flags() {
    assert_eq!(
        ModuleOpensFlags::from_u16(0x9000),
        vec![
            ModuleOpensFlags::AccSynthetic,
            ModuleOpensFlags::AccMandated
        ],
        "Incorrect access flags returned"
    );
}

#[test]
fn class_access_flags_test_class_access_flag_public() {
    assert_eq!(
        ClassAccessFlags::from_u16(0x0001)[0],
        ClassAccessFlags::AccPublic,
        "Incorrect access flag returned"
    );
}

#[test]
fn class_access_flags_test_class_access_flag_final() {
    assert_eq!(
        ClassAccessFlags::from_u16(0x0010)[0],
        ClassAccessFlags::AccFinal,
        "Incorrect access flag returned"
    );
}

#[test]
fn class_access_flags_test_class_access_flag_super() {
    assert_eq!(
        ClassAccessFlags::from_u16(0x0020)[0],
        ClassAccessFlags::AccSuper,
        "Incorrect access flag returned"
    );
}

#[test]
fn class_access_flags_test_class_access_flag_interface() {
    assert_eq!(
        ClassAccessFlags::from_u16(0x0200)[0],
        ClassAccessFlags::AccInterface,
        "Incorrect access flag returned"
    );
}

#[test]
fn class_access_flags_test_class_access_flag_abstract() {
    assert_eq!(
        ClassAccessFlags::from_u16(0x0400)[0],
        ClassAccessFlags::AccAbstract,
        "Incorrect access flag returned"
    );
}

#[test]
fn class_access_flags_test_class_access_flag_synthetic() {
    assert_eq!(
        ClassAccessFlags::from_u16(0x1000)[0],
        ClassAccessFlags::AccSynthetic,
        "Incorrect access flag returned"
    );
}

#[test]
fn class_access_flags_test_class_access_flag_annotation() {
    assert_eq!(
        ClassAccessFlags::from_u16(0x2000)[0],
        ClassAccessFlags::AccAnnotation,
        "Incorrect access flag returned"
    );
}

#[test]
fn class_access_flags_test_class_access_flag_enum() {
    assert_eq!(
        ClassAccessFlags::from_u16(0x4000)[0],
        ClassAccessFlags::AccEnum,
        "Incorrect access flag returned"
    );
}

#[test]
fn class_access_flags_test_class_access_flag_module() {
    assert_eq!(
        ClassAccessFlags::from_u16(0x8000)[0],
        ClassAccessFlags::AccModule,
        "Incorrect access flag returned"
    );
}

#[test]
fn class_access_flags_test_class_access_multiple_flags() {
    assert_eq!(
        ClassAccessFlags::from_u16(0x4420),
        vec![
            ClassAccessFlags::AccSuper,
            ClassAccessFlags::AccAbstract,
            ClassAccessFlags::AccEnum
        ],
        "Incorrect access flags returned"
    );
}

#[test]
fn field_access_flags_test_field_access_flag_public() {
    assert_eq!(
        FieldAccessFlags::from_u16(0x0001)[0],
        FieldAccessFlags::AccPublic,
        "Incorrect access flag returned"
    );
}

#[test]
fn field_access_flags_test_field_access_flag_final() {
    assert_eq!(
        FieldAccessFlags::from_u16(0x0002)[0],
        FieldAccessFlags::AccPrivate,
        "Incorrect access flag returned"
    );
}

#[test]
fn field_access_flags_test_field_access_flag_super() {
    assert_eq!(
        FieldAccessFlags::from_u16(0x0004)[0],
        FieldAccessFlags::AccProtected,
        "Incorrect access flag returned"
    );
}

#[test]
fn field_access_flags_test_field_access_flag_interface() {
    assert_eq!(
        FieldAccessFlags::from_u16(0x0008)[0],
        FieldAccessFlags::AccStatic,
        "Incorrect access flag returned"
    );
}

#[test]
fn field_access_flags_test_field_access_flag_abstract() {
    assert_eq!(
        FieldAccessFlags::from_u16(0x0010)[0],
        FieldAccessFlags::AccFinal,
        "Incorrect access flag returned"
    );
}

#[test]
fn field_access_flags_test_field_access_flag_synthetic() {
    assert_eq!(
        FieldAccessFlags::from_u16(0x0040)[0],
        FieldAccessFlags::AccVolatile,
        "Incorrect access flag returned"
    );
}

#[test]
fn field_access_flags_test_field_access_flag_annotation() {
    assert_eq!(
        FieldAccessFlags::from_u16(0x0080)[0],
        FieldAccessFlags::AccTransient,
        "Incorrect access flag returned"
    );
}

#[test]
fn field_access_flags_test_field_access_flag_enum() {
    assert_eq!(
        FieldAccessFlags::from_u16(0x1000)[0],
        FieldAccessFlags::AccSynthetic,
        "Incorrect access flag returned"
    );
}

#[test]
fn field_access_flags_test_field_access_flag_module() {
    assert_eq!(
        FieldAccessFlags::from_u16(0x4000)[0],
        FieldAccessFlags::AccEnum,
        "Incorrect access flag returned"
    );
}

#[test]
fn field_access_flags_test_field_access_multiple_flags() {
    assert_eq!(
        FieldAccessFlags::from_u16(0x5082),
        vec![
            FieldAccessFlags::AccPrivate,
            FieldAccessFlags::AccTransient,
            FieldAccessFlags::AccSynthetic,
            FieldAccessFlags::AccEnum
        ],
        "Incorrect access flags returned"
    );
}

#[test]
fn method_parameter_access_flags_test_method_parameter_access_flag_final() {
    assert_eq!(
        MethodParameterAccessFlags::from_u16(0x0010)[0],
        MethodParameterAccessFlags::AccFinal,
        "Incorrect access flag returned"
    );
}

#[test]
fn method_parameter_access_flags_test_method_parameter_access_flag_synthetic() {
    assert_eq!(
        MethodParameterAccessFlags::from_u16(0x1000)[0],
        MethodParameterAccessFlags::AccSynthetic,
        "Incorrect access flag returned"
    );
}

#[test]
fn method_parameter_access_flags_test_method_parameter_access_flag_mandated() {
    assert_eq!(
        MethodParameterAccessFlags::from_u16(0x8000)[0],
        MethodParameterAccessFlags::AccMandated,
        "Incorrect access flag returned"
    );
}

#[test]
fn method_parameter_access_flags_test_method_parameter_access_multiple_flags() {
    assert_eq!(
        MethodParameterAccessFlags::from_u16(0x9010),
        vec![
            MethodParameterAccessFlags::AccFinal,
            MethodParameterAccessFlags::AccSynthetic,
            MethodParameterAccessFlags::AccMandated
        ],
        "Incorrect access flags returned"
    );
}

#[test]
fn module_exports_flags_test_module_exports_access_flag_synthetic() {
    assert_eq!(
        ModuleExportsFlags::from_u16(0x1000)[0],
        ModuleExportsFlags::AccSynthetic,
        "Incorrect access flag returned"
    );
}

#[test]
fn module_exports_flags_test_module_exports_access_flag_mandated() {
    assert_eq!(
        ModuleExportsFlags::from_u16(0x8000)[0],
        ModuleExportsFlags::AccMandated,
        "Incorrect access flag returned"
    );
}

#[test]
fn module_exports_flags_test_module_exports_access_multiple_flags() {
    assert_eq!(
        ModuleExportsFlags::from_u16(0x9000),
        vec![
            ModuleExportsFlags::AccSynthetic,
            ModuleExportsFlags::AccMandated
        ],
        "Incorrect access flags returned"
    );
}

#[test]
fn module_flags_test_module_access_flag_open() {
    assert_eq!(
        ModuleFlags::from_u16(0x0020)[0],
        ModuleFlags::AccOpen,
        "Incorrect access flag returned"
    );
}

#[test]
fn module_flags_test_module_access_flag_synthetic() {
    assert_eq!(
        ModuleFlags::from_u16(0x1000)[0],
        ModuleFlags::AccSynthetic,
        "Incorrect access flag returned"
    );
}

#[test]
fn module_flags_test_module_access_flag_mandated() {
    assert_eq!(
        ModuleFlags::from_u16(0x8000)[0],
        ModuleFlags::AccMandated,
        "Incorrect access flag returned"
    );
}

#[test]
fn module_flags_test_module_access_multiple_flags() {
    assert_eq!(
        ModuleFlags::from_u16(0x9020),
        vec![
            ModuleFlags::AccOpen,
            ModuleFlags::AccSynthetic,
            ModuleFlags::AccMandated
        ],
        "Incorrect access flags returned"
    );
}

#[test]
fn module_opens_flags_test_module_opens_access_flag_synthetic() {
    assert_eq!(
        ModuleOpensFlags::from_u16(0x1000)[0],
        ModuleOpensFlags::AccSynthetic,
        "Incorrect access flag returned"
    );
}

#[test]
fn module_opens_flags_test_module_opens_access_flag_mandated() {
    assert_eq!(
        ModuleOpensFlags::from_u16(0x8000)[0],
        ModuleOpensFlags::AccMandated,
        "Incorrect access flag returned"
    );
}

#[test]
fn module_opens_flags_test_module_opens_access_multiple_flags() {
    assert_eq!(
        ModuleOpensFlags::from_u16(0x9000),
        vec![
            ModuleOpensFlags::AccSynthetic,
            ModuleOpensFlags::AccMandated
        ],
        "Incorrect access flags returned"
    );
}

#[test]
fn module_requires_flags_test_module_requires_access_flag_transitive() {
    assert_eq!(
        ModuleRequiresFlags::from_u16(0x0020)[0],
        ModuleRequiresFlags::AccTransitive,
        "Incorrect access flag returned"
    );
}

#[test]
fn module_requires_flags_test_module_requires_access_flag_static_phase() {
    assert_eq!(
        ModuleRequiresFlags::from_u16(0x0040)[0],
        ModuleRequiresFlags::AccStaticPhase,
        "Incorrect access flag returned"
    );
}

#[test]
fn module_requires_flags_test_module_requires_access_flag_synthetic() {
    assert_eq!(
        ModuleRequiresFlags::from_u16(0x1000)[0],
        ModuleRequiresFlags::AccSynthetic,
        "Incorrect access flag returned"
    );
}

#[test]
fn module_requires_flags_test_module_requires_access_flag_mandated() {
    assert_eq!(
        ModuleRequiresFlags::from_u16(0x8000)[0],
        ModuleRequiresFlags::AccMandated,
        "Incorrect access flag returned"
    );
}

#[test]
fn module_requires_flags_test_module_requires_access_multiple_flags() {
    assert_eq!(
        ModuleRequiresFlags::from_u16(0x9060),
        vec![
            ModuleRequiresFlags::AccTransitive,
            ModuleRequiresFlags::AccStaticPhase,
            ModuleRequiresFlags::AccSynthetic,
            ModuleRequiresFlags::AccMandated
        ],
        "Incorrect access flags returned"
    );
}

#[test]
fn nested_class_access_flags_test_nested_class_access_flag_public() {
    assert_eq!(
        NestedClassAccessFlags::from_u16(0x0001)[0],
        NestedClassAccessFlags::AccPublic,
        "Incorrect access flag returned"
    );
}

#[test]
fn nested_class_access_flags_test_nested_class_access_flag_private() {
    assert_eq!(
        NestedClassAccessFlags::from_u16(0x0002)[0],
        NestedClassAccessFlags::AccPrivate,
        "Incorrect access flag returned"
    );
}

#[test]
fn nested_class_access_flags_test_nested_class_access_flag_protected() {
    assert_eq!(
        NestedClassAccessFlags::from_u16(0x0004)[0],
        NestedClassAccessFlags::AccProtected,
        "Incorrect access flag returned"
    );
}

#[test]
fn nested_class_access_flags_test_nested_class_access_flag_static() {
    assert_eq!(
        NestedClassAccessFlags::from_u16(0x0008)[0],
        NestedClassAccessFlags::AccStatic,
        "Incorrect access flag returned"
    );
}

#[test]
fn nested_class_access_flags_test_nested_class_access_flag_final() {
    assert_eq!(
        NestedClassAccessFlags::from_u16(0x0010)[0],
        NestedClassAccessFlags::AccFinal,
        "Incorrect access flag returned"
    );
}

#[test]
fn nested_class_access_flags_test_nested_class_access_flag_synchronized() {
    assert_eq!(
        NestedClassAccessFlags::from_u16(0x0200)[0],
        NestedClassAccessFlags::AccInterface,
        "Incorrect access flag returned"
    );
}

#[test]
fn nested_class_access_flags_test_nested_class_access_flag_bridge() {
    assert_eq!(
        NestedClassAccessFlags::from_u16(0x0400)[0],
        NestedClassAccessFlags::AccAbstract,
        "Incorrect access flag returned"
    );
}

#[test]
fn nested_class_access_flags_test_nested_class_access_flag_varargs() {
    assert_eq!(
        NestedClassAccessFlags::from_u16(0x1000)[0],
        NestedClassAccessFlags::AccSynthetic,
        "Incorrect access flag returned"
    );
}

#[test]
fn nested_class_access_flags_test_nested_class_access_flag_native() {
    assert_eq!(
        NestedClassAccessFlags::from_u16(0x2000)[0],
        NestedClassAccessFlags::AccAnnotation,
        "Incorrect access flag returned"
    );
}

#[test]
fn nested_class_access_flags_test_nested_class_access_flag_abstract() {
    assert_eq!(
        NestedClassAccessFlags::from_u16(0x4000)[0],
        NestedClassAccessFlags::AccEnum,
        "Incorrect access flag returned"
    );
}

#[test]
fn nested_class_access_flags_test_nested_class_access_multiple_flags() {
    assert_eq!(
        NestedClassAccessFlags::from_u16(0x7617),
        vec![
            NestedClassAccessFlags::AccPublic,
            NestedClassAccessFlags::AccPrivate,
            NestedClassAccessFlags::AccProtected,
            NestedClassAccessFlags::AccFinal,
            NestedClassAccessFlags::AccInterface,
            NestedClassAccessFlags::AccAbstract,
            NestedClassAccessFlags::AccSynthetic,
            NestedClassAccessFlags::AccAnnotation,
            NestedClassAccessFlags::AccEnum,
        ],
        "Incorrect access flags returned"
    );
}
