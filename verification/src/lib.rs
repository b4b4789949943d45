//! Library that turns a Rust-syntax compute shader into WGSL.
pub mod text;
pub mod syntax;
pub mod errors;
pub mod wgsl_types;
pub mod wgsl_exprs;
pub mod validation;
pub mod custom_type_name;
pub mod wgsl_components;
pub mod wgsl_wgpu_binding;
pub mod wgsl_shader_module_lib_portion;
pub mod wgsl_shader_module;
pub mod compose_wgsl_module;
pub mod vectors;
pub mod remove_doc_comments;
pub mod wgsl_items;
pub mod custom_types;
pub mod transform_wgsl_helper_methods;
pub mod push_calls;
pub mod use_statements;
pub mod module_parser;
pub mod per_component_expansion;
pub mod tokenized_initializer_for_user_portion;
pub mod expanded_module;
pub mod laws;
