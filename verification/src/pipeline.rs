//! The compiler's object pipeline: target, code generator flags, an object
//! module with the runtime's declarations, the module's strings and its
//! user functions, then the object file's bytes; and the C header of the
//! exported functions.

use vstd::prelude::*;
use cranelift_module::FuncId;
use crate::header::{generate_header, header_text, LirFunction, LirModule};
use cranelift_codegen::isa::CallConv;
use cranelift_object::ObjectModule;
use crate::header::{lir_lane, user_param_lanes};
use crate::object::{
    create_object_module, create_string_data, declare_runtime_functions, declare_user_function,
    emit_object, global_data, import_signature, module_data, module_functions, module_names,
    runtime_global_table, runtime_import_table, runtime_names_free, string_plan, RuntimeDecls, StringTable, declare_error, define_error, origin_text,
    setup_error_text, ModuleSetupError,
};
use crate::strings::data_bytes;
use crate::target::{triple_os, OsKind};
use crate::values::ClifType;
use crate::options::{isa_settings_for, lemma_setting_error_prefixes, CraneliftAotCompiler};
use crate::strings::{collect_strings, color_safe, module_strings, StringOrigin};
use crate::strs::{owned, str_eq, strings_view};
use crate::target::triple_parses;

verus! {

/// Whether a function is left out of the object: `main` in library mode.
pub open spec fn skipped_in_object(library_mode: bool, f: LirFunction) -> bool {
    library_mode && f.name@ == "main"@
}

/// The user functions an object declares, with their names, in order.
pub open spec fn declared_functions(library_mode: bool, fs: Seq<LirFunction>) -> Seq<Seq<char>>
    decreases fs.len(),
{
    if fs.len() == 0 {
        Seq::empty()
    } else {
        let rest = declared_functions(library_mode, fs.drop_last());
        if skipped_in_object(library_mode, fs.last()) {
            rest
        } else {
            rest.push(fs.last().name@)
        }
    }
}

/// An object file under construction, with what was declared in it.
pub struct ObjectParts {
    /// The object file's bytes.
    pub bytes: Vec<u8>,
    /// The user functions declared, with their ids, in order.
    pub functions: Vec<(String, FuncId)>,
    /// The strings placed in the data section, in order.
    pub strings: Vec<String>,
}

impl CraneliftAotCompiler {
    /// Generate a C header for the exported functions of a module.
    pub fn generate_header(&self, lir_module: &LirModule) -> (header: String)
        ensures
            header@ == header_text(*lir_module),
    {
        generate_header(lir_module)
    }

    /// Assembles the object module of a module: for the target of these
    /// options, with their code generator flags, it declares the
    /// runtime's functions and globals, places the module's strings
    /// (`const_strings`, its string constants in instruction order; see
    /// `collect_strings`) in the data section and declares the user
    /// functions (all but `main` in library mode). The user functions'
    /// bodies are lowered from their instructions (see `plan_function`
    /// and `plan_instruction`), which this assembly does not emit. The
    /// first step that fails stops it with its error; a target triple
    /// that does not parse is the first such step. On success the module
    /// holds what `object_contents` says with the calling convention it
    /// returns: that of the target's operating system.
    pub fn assemble_module(&self, lir_module: &LirModule, const_strings: &Vec<String>) -> (r: Result<(ObjectModule, Vec<(String, FuncId)>, Vec<String>, CallConv, StringTable, RuntimeDecls), String>)
        requires
            forall|i: int| 0 <= i < const_strings@.len() ==> color_safe(#[trigger] const_strings@[i]@),
        ensures
            r matches Ok((m, functions, strings, c, table, rt)) ==> functions@.map_values(|p: (String, FuncId)| p.0@)
                == declared_functions(self.options().library_mode, lir_module.functions@),
            r matches Ok((m, functions, strings, c, table, rt)) ==> strings_view(strings@) == module_strings(
                strings_view(const_strings@),
            ),
            r matches Ok((m, functions, strings, c, table, rt)) ==> (c == CallConv::SystemV || c == CallConv::WindowsFastcall)
                && object_contents(
                    m,
                    c,
                    self.options().library_mode,
                    lir_module.functions@,
                    strings_view(strings@),
                    self.options().fast_compile,
                ) && (self.options().target_triple matches Some(t) ==> c == conv_for_os(triple_os(t@))),
            r matches Ok((m, functions, strings, c, table, rt)) ==> table.keys() == string_plan(
                Seq::empty(),
                strings_view(strings@),
                self.options().fast_compile,
            ).map_values(|e: (Seq<char>, Seq<char>, StringOrigin)| e.0),
            self.options().target_triple matches Some(t) ==> (!triple_parses(t@) ==> (r matches Err(msg)
                && exists|reason: Seq<char>| msg@ == "Invalid target triple '"@ + t@ + "': "@ + reason)),
            r matches Err(msg) && names_bad_triple(msg@) ==> (self.options().target_triple matches Some(t)
                && !triple_parses(t@)),
    {
        let target = match self.get_target_triple() {
            Ok(target) => target,
            Err(msg) => return Err(msg),
        };
        let flags = match self.build_isa_flags() {
            Ok(f) => f,
            Err(msg) => {
                proof {
                    lemma_setting_error_prefixes(self.options());
                    let s = isa_settings_for(self.options());
                    let (i, reason) = choose|i: int, reason: Seq<char>|
                        0 <= i < s.len() && s[i].2 && msg@ == s[i].3 + reason;
                    assert(msg@[0] == s[i].3[0]);
                    lemma_not_bad_triple(msg@);
                }
                return Err(msg);
            },
        };
        let conv = match self.get_calling_convention(&target) {
            Ok(c) => c,
            Err(msg) => return Err(msg),
        };
        assert(conv == conv_for_os(target.os));
        let mut module = match create_object_module(&target, flags) {
            Ok(m) => m,
            Err(msg) => {
                proof {
                    reveal_strlit("Unsupported target: ");
                    reveal_strlit("Failed to create ISA: ");
                    reveal_strlit("Failed to create object builder: ");
                    let e = choose|e: ModuleSetupError| msg@ == setup_error_text(target.text@, e);
                    match e {
                        ModuleSetupError::Unsupported => assert(msg@[0] == 'U'),
                        ModuleSetupError::Isa(t) => assert(msg@[0] == 'F'),
                        ModuleSetupError::Builder(t) => assert(msg@[0] == 'F'),
                    }
                    lemma_not_bad_triple(msg@);
                }
                return Err(msg);
            },
        };
        let ghost names0 = module_names(module);
        assert(runtime_names_free(names0));
        let runtime = match declare_runtime_functions(&mut module, conv) {
            Ok(rt) => rt,
            Err(msg) => {
                proof {
                    assert(msg@[0] == 'F') by {
                        if exists|i: int, reason: Seq<char>|
                            0 <= i < runtime_import_table().len() && runtime_import_table()[i].3 && msg@
                                == #[trigger] declare_error(runtime_import_table()[i].0, reason) {
                            let (i, reason) = choose|i: int, reason: Seq<char>|
                                0 <= i < runtime_import_table().len() && runtime_import_table()[i].3 && msg@
                                    == #[trigger] declare_error(runtime_import_table()[i].0, reason);
                            lemma_failed_messages(runtime_import_table()[i].0, reason);
                        } else {
                            let (i, reason) = choose|i: int, reason: Seq<char>|
                                0 <= i < runtime_global_table().len() && (msg@ == declare_error(
                                    runtime_global_table()[i].3,
                                    reason,
                                ) || msg@ == define_error(runtime_global_table()[i].3, reason));
                            lemma_failed_messages(runtime_global_table()[i].3, reason);
                        }
                    }
                    lemma_not_bad_triple(msg@);
                }
                return Err(msg);
            },
        };
        let ghost funcs_rt = module_functions(module);
        let ghost data_rt = module_data(module);
        let all_strings = collect_strings(const_strings);
        let mut table = StringTable::new();
        let fast = self.get_options().fast_compile;
        match create_string_data(&mut module, &mut table, &all_strings, fast) {
            Ok(()) => {},
            Err(msg) => {
                proof {
                    let (o, reason) = choose|o: StringOrigin, reason: Seq<char>|
                        msg@ == declare_error(origin_text(o), reason) || msg@ == define_error(origin_text(o), reason);
                    lemma_failed_messages(origin_text(o), reason);
                    lemma_not_bad_triple(msg@);
                }
                return Err(msg);
            },
        }
        let ghost data_str = module_data(module);
        let library_mode = self.get_options().library_mode;
        let fs = &lir_module.functions;
        let mut functions: Vec<(String, FuncId)> = Vec::new();
        let mut i: usize = 0;
        while i < fs.len()
            invariant
                i <= fs@.len(),
                fs == &lir_module.functions,
                library_mode == self.options().library_mode,
                self.options().target_triple matches Some(t) ==> triple_parses(t@) && conv == conv_for_os(triple_os(t@)),
                functions@.map_values(|p: (String, FuncId)| p.0@) == declared_functions(
                    library_mode,
                    fs@.subrange(0, i as int),
                ),
                module_data(module) == data_str,
                forall|key: Seq<char>|
                    #![trigger funcs_rt.dom().contains(key)]
                    funcs_rt.dom().contains(key) && !declared_functions(library_mode, fs@.subrange(0, i as int)).contains(key)
                        ==> module_functions(module).dom().contains(key) && module_functions(module)[key] == funcs_rt[key],
                forall|k: int|
                    0 <= k < i && declared_last(library_mode, fs@.subrange(0, i as int), k)
                        ==> module_functions(module).dom().contains((#[trigger] fs@[k]).name@)
                        && module_functions(module)[fs@[k].name@] == user_signature(conv, fs@[k]),
            decreases fs.len() - i,
        {
            let f = &fs[i];
            let ghost before = functions@;
            let ghost funcs_before = module_functions(module);
            let skip = library_mode && str_eq(f.name.as_str(), "main");
            proof {
                let sub = fs@.subrange(0, i + 1);
                assert(sub.drop_last() =~= fs@.subrange(0, i as int));
                assert(sub.last() == fs@[i as int]);
            }
            if !skip {
                let id = match declare_user_function(&mut module, f, conv) {
                    Ok(id) => id,
                    Err(msg) => {
                        proof {
                            reveal_strlit("Failed to declare function ");
                            let reason = choose|reason: Seq<char>|
                                msg@ == "Failed to declare function "@ + f.name@ + ": "@ + reason;
                            assert(msg@[0] == 'F');
                            lemma_not_bad_triple(msg@);
                        }
                        return Err(msg);
                    },
                };
                functions.push((owned(f.name.as_str()), id));
                assert(functions@.map_values(|p: (String, FuncId)| p.0@) =~= before.map_values(
                    |p: (String, FuncId)| p.0@,
                ).push(f.name@));
            }
            proof {
                let pre = fs@.subrange(0, i as int);
                let post = fs@.subrange(0, i + 1);
                assert forall|k: int| 0 <= k < i + 1 && declared_last(library_mode, post, k) implies
                    module_functions(module).dom().contains((#[trigger] fs@[k]).name@)
                        && module_functions(module)[fs@[k].name@] == user_signature(conv, fs@[k]) by {
                    assert(post[k] == fs@[k]);
                    if k < i {
                        assert(declared_last(library_mode, pre, k)) by {
                            assert forall|k2: int| k < k2 < pre.len() implies
                                skipped_in_object(library_mode, #[trigger] pre[k2]) || pre[k2].name@ != pre[k].name@ by {
                                assert(post[k2] == pre[k2]);
                            }
                        }
                        if !skip {
                            assert(post[i as int] == fs@[i as int]);
                        }
                    }
                }
                assert forall|key: Seq<char>|
                    #![trigger funcs_rt.dom().contains(key)]
                    funcs_rt.dom().contains(key) && !declared_functions(library_mode, post).contains(key)
                        implies module_functions(module).dom().contains(key) && module_functions(module)[key] == funcs_rt[key] by {
                    if !skip {
                        assert(declared_functions(library_mode, post) == declared_functions(library_mode, pre).push(f.name@));
                        assert(declared_functions(library_mode, post).contains(f.name@)) by {
                            let d = declared_functions(library_mode, post);
                            assert(d[d.len() - 1] == f.name@);
                        }
                        assert(!declared_functions(library_mode, pre).contains(key)) by {
                            if declared_functions(library_mode, pre).contains(key) {
                                let d = declared_functions(library_mode, pre);
                                let j = choose|j: int| 0 <= j < d.len() && d[j] == key;
                                assert(declared_functions(library_mode, post)[j] == key);
                            }
                        }
                    }
                }
            }
            i = i + 1;
        }
        assert(fs@.subrange(0, i as int) =~= fs@);
        proof {
            assert(object_contents(module, conv, library_mode, fs@, strings_view(all_strings@), fast)) by {
                assert forall|j: int| 0 <= j < runtime_global_table().len() implies module_data(module).dom().contains(
                    (#[trigger] runtime_global_table()[j]).0,
                ) && module_data(module)[runtime_global_table()[j].0] == global_data(j) by {
                    assert(data_rt.dom().contains(runtime_global_table()[j].0));
                }
                assert forall|i2: int|
                    0 <= i2 < runtime_import_table().len() && !declared_functions(library_mode, fs@).contains(
                        (#[trigger] runtime_import_table()[i2]).0,
                    ) implies module_functions(module).dom().contains(runtime_import_table()[i2].0)
                    && module_functions(module)[runtime_import_table()[i2].0] == import_signature(conv, i2) by {
                    assert(funcs_rt.dom().contains(runtime_import_table()[i2].0));
                }
            }
        }
        assert(fast == self.options().fast_compile);
        assert(fs@ == lir_module.functions@);
        assert(self.options().target_triple matches Some(t) ==> conv == conv_for_os(triple_os(t@)));
        assert(object_contents(module, conv, self.options().library_mode, lir_module.functions@, strings_view(all_strings@), self.options().fast_compile));
        Ok((module, functions, all_strings, conv, table, runtime))
    }

    /// Builds the object file of a module: assembles its object module
    /// (see `assemble_module`), then writes the object. The first step
    /// that fails stops it with its error; a target triple that does not
    /// parse is the first such step.
    pub fn build_object(&self, lir_module: &LirModule, const_strings: &Vec<String>) -> (r: Result<ObjectParts, String>)
        requires
            forall|i: int| 0 <= i < const_strings@.len() ==> color_safe(#[trigger] const_strings@[i]@),
        ensures
            r matches Ok(parts) ==> parts.functions@.map_values(|p: (String, FuncId)| p.0@)
                == declared_functions(self.options().library_mode, lir_module.functions@),
            r matches Ok(parts) ==> strings_view(parts.strings@) == module_strings(strings_view(const_strings@)),
            self.options().target_triple matches Some(t) ==> (!triple_parses(t@) ==> (r matches Err(msg)
                && exists|reason: Seq<char>| msg@ == "Invalid target triple '"@ + t@ + "': "@ + reason)),
            r matches Err(msg) && names_bad_triple(msg@) ==> (self.options().target_triple matches Some(t)
                && !triple_parses(t@)),
    {
        let (module, functions, strings, _conv, _table, _runtime) = match self.assemble_module(lir_module, const_strings) {
            Ok(parts) => parts,
            Err(msg) => return Err(msg),
        };
        let bytes = match emit_object(module) {
            Ok(b) => b,
            Err(msg) => {
                proof {
                    reveal_strlit("Failed to write object: ");
                    let reason = choose|reason: Seq<char>| msg@ == "Failed to write object: "@ + reason;
                    assert(msg@[0] == 'F');
                    lemma_not_bad_triple(msg@);
                }
                return Err(msg);
            },
        };
        Ok(ObjectParts { bytes, functions, strings })
    }
}

/// Whether a message is the one a target triple that does not parse is
/// refused with.
pub open spec fn names_bad_triple(m: Seq<char>) -> bool {
    exists|t: Seq<char>, reason: Seq<char>| m == "Invalid target triple '"@ + t + "': "@ + reason
}

/// A message that begins with `F` or `U` is not the refusal of a target
/// triple.
proof fn lemma_not_bad_triple(m: Seq<char>)
    requires
        m.len() > 0,
        m[0] == 'F' || m[0] == 'U',
    ensures
        !names_bad_triple(m),
{
    reveal_strlit("Invalid target triple '");
    assert forall|t: Seq<char>, reason: Seq<char>| m != "Invalid target triple '"@ + t + "': "@ + reason by {
        let x = "Invalid target triple '"@ + t + "': "@ + reason;
        assert(x[0] == 'I');
    }
}

/// Declaration and definition failures begin with `F`.
proof fn lemma_failed_messages(what: Seq<char>, reason: Seq<char>)
    ensures
        declare_error(what, reason).len() > 0,
        declare_error(what, reason)[0] == 'F',
        define_error(what, reason).len() > 0,
        define_error(what, reason)[0] == 'F',
{
    reveal_strlit("Failed to declare ");
    reveal_strlit("Failed to define ");
    assert(declare_error(what, reason)[0] == "Failed to declare "@[0]);
    assert(define_error(what, reason)[0] == "Failed to define "@[0]);
}

/// The calling convention of a target's operating system.
pub open spec fn conv_for_os(os: OsKind) -> CallConv {
    if os == OsKind::Windows {
        CallConv::WindowsFastcall
    } else {
        CallConv::SystemV
    }
}

/// The signature a user function is declared with.
pub open spec fn user_signature(conv: CallConv, f: LirFunction) -> (CallConv, Seq<ClifType>, Seq<ClifType>) {
    (conv, user_param_lanes(f), seq![lir_lane(f.ret_type)])
}

/// Whether the function at `k` is declared in the object and no later
/// declared function has its name.
pub open spec fn declared_last(library_mode: bool, fs: Seq<LirFunction>, k: int) -> bool {
    &&& !skipped_in_object(library_mode, fs[k])
    &&& forall|k2: int| k < k2 < fs.len() ==> skipped_in_object(library_mode, #[trigger] fs[k2]) || fs[k2].name@ != fs[k].name@
}

/// What an assembled object module holds: every runtime global with its
/// zero bytes and alignment; every planned string's data object with the
/// string's bytes; every runtime import that no user function takes the
/// name of, with its signature; and every declared user function (the
/// last of a name) with its signature.
pub open spec fn object_contents(
    m: ObjectModule,
    conv: CallConv,
    library_mode: bool,
    fs: Seq<LirFunction>,
    strings: Seq<Seq<char>>,
    fast_compile: bool,
) -> bool {
    &&& forall|j: int|
        0 <= j < runtime_global_table().len() ==> module_data(m).dom().contains(
            (#[trigger] runtime_global_table()[j]).0,
        ) && module_data(m)[runtime_global_table()[j].0] == global_data(j)
    &&& forall|k: int|
        0 <= k < string_plan(Seq::empty(), strings, fast_compile).len() ==> {
            let e = #[trigger] string_plan(Seq::empty(), strings, fast_compile)[k];
            module_data(m).dom().contains(e.1) && module_data(m)[e.1] == (data_bytes(e.0), None::<u64>)
        }
    &&& forall|i: int|
        0 <= i < runtime_import_table().len() && !declared_functions(library_mode, fs).contains(
            (#[trigger] runtime_import_table()[i]).0,
        ) ==> module_functions(m).dom().contains(runtime_import_table()[i].0)
            && module_functions(m)[runtime_import_table()[i].0] == import_signature(conv, i)
    &&& forall|k: int|
        0 <= k < fs.len() && declared_last(library_mode, fs, k) ==> module_functions(m).dom().contains(
            (#[trigger] fs[k]).name@,
        ) && module_functions(m)[fs[k].name@] == user_signature(conv, fs[k])
}

} // verus!
