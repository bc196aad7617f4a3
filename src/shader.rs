use vstd::prelude::*;
use vstd::string::StrSliceExecFns;
use web_sys::{WebGl2RenderingContext, WebGlProgram, WebGlShader};

verus! {

#[verifier::external_type_specification]
#[verifier::external_body]
pub struct ExWebGl2RenderingContext(WebGl2RenderingContext);

#[verifier::external_type_specification]
#[verifier::external_body]
pub struct ExWebGlShader(WebGlShader);

#[verifier::external_type_specification]
#[verifier::external_body]
pub struct ExWebGlProgram(WebGlProgram);

/// The diagnostic reported for a failed build: the context's log when it says
/// something, else `fallback`.
pub open spec fn diagnostic(log: Option<String>, fallback: Seq<char>) -> Seq<char> {
    match log {
        Some(s) => if s@.len() > 0 {
            s@
        } else {
            fallback
        },
        None => fallback,
    }
}

/// Decides the outcome of a compile or link step from its status query and log.
///
/// The step succeeded only when the status reads `true`; anything else (`false`,
/// or a value that is no boolean) is a failure with a non-empty diagnostic.
pub fn status_result<T>(object: T, status: Option<bool>, log: Option<String>, fallback: &str) -> (r:
    Result<T, String>)
    requires
        fallback@.len() > 0,
    ensures
        status == Some(true) ==> r == Ok::<T, String>(object),
        status != Some(true) ==> r is Err && r->Err_0@ == diagnostic(log, fallback@),
        r is Err ==> r->Err_0@.len() > 0,
{
    if status == Some(true) {
        return Ok(object);
    }
    match log {
        Some(s) => {
            if s.as_str().unicode_len() > 0 {
                Err(s)
            } else {
                Err(fallback.to_string())
            }
        },
        None => Err(fallback.to_string()),
    }
}

/// Relies on `WebGl2RenderingContext::create_shader`: a new shader object of the
/// given kind, or `None` when the context cannot make one.
#[verifier::external_body]
fn create_shader_object(context: &WebGl2RenderingContext, shader_type: u32) -> (r: Option<
    WebGlShader,
>) {
    context.create_shader(shader_type)
}

/// Relies on `WebGl2RenderingContext::shader_source`: sets the shader's GLSL text.
#[verifier::external_body]
fn set_shader_source(context: &WebGl2RenderingContext, shader: &WebGlShader, source: &str) {
    context.shader_source(shader, source)
}

/// Relies on `WebGl2RenderingContext::compile_shader`: compiles the shader's text.
#[verifier::external_body]
fn compile_shader_object(context: &WebGl2RenderingContext, shader: &WebGlShader) {
    context.compile_shader(shader)
}

/// Relies on `WebGl2RenderingContext::get_shader_parameter` with `COMPILE_STATUS`:
/// the compile status, `None` when the value read is no boolean.
#[verifier::external_body]
fn shader_compile_status(context: &WebGl2RenderingContext, shader: &WebGlShader) -> (r: Option<
    bool,
>) {
    context.get_shader_parameter(shader, WebGl2RenderingContext::COMPILE_STATUS).as_bool()
}

/// Relies on `WebGl2RenderingContext::get_shader_info_log`: the compiler's log.
#[verifier::external_body]
fn shader_info_log(context: &WebGl2RenderingContext, shader: &WebGlShader) -> (r: Option<String>) {
    context.get_shader_info_log(shader)
}

/// Relies on `WebGl2RenderingContext::create_program`: a new program object, or
/// `None` when the context cannot make one.
#[verifier::external_body]
fn create_program_object(context: &WebGl2RenderingContext) -> (r: Option<WebGlProgram>) {
    context.create_program()
}

/// Relies on `WebGl2RenderingContext::attach_shader`: attaches a shader to a program.
#[verifier::external_body]
fn attach_shader_object(context: &WebGl2RenderingContext, program: &WebGlProgram, shader: &WebGlShader) {
    context.attach_shader(program, shader)
}

/// Relies on `WebGl2RenderingContext::link_program`: links the attached shaders.
#[verifier::external_body]
fn link_program_object(context: &WebGl2RenderingContext, program: &WebGlProgram) {
    context.link_program(program)
}

/// Relies on `WebGl2RenderingContext::get_program_parameter` with `LINK_STATUS`:
/// the link status, `None` when the value read is no boolean.
#[verifier::external_body]
fn program_link_status(context: &WebGl2RenderingContext, program: &WebGlProgram) -> (r: Option<
    bool,
>) {
    context.get_program_parameter(program, WebGl2RenderingContext::LINK_STATUS).as_bool()
}

/// Relies on `WebGl2RenderingContext::get_program_info_log`: the linker's log.
#[verifier::external_body]
fn program_info_log(context: &WebGl2RenderingContext, program: &WebGlProgram) -> (r: Option<String>) {
    context.get_program_info_log(program)
}

/// Compiles `source` into a shader of kind `shader_type`.
///
/// Whether compilation succeeds is the context's decision; whatever it decides, a
/// failure comes back as an error with a non-empty diagnostic.
pub fn compile_shader(context: &WebGl2RenderingContext, shader_type: u32, source: &str) -> (r:
    Result<WebGlShader, String>)
    ensures
        r is Err ==> r->Err_0@.len() > 0,
{
    proof {
        reveal_strlit("Unable to create shader object");
        reveal_strlit("Unknown error creating shader");
    }
    let shader = match create_shader_object(context, shader_type) {
        Some(s) => s,
        None => return Err("Unable to create shader object".to_string()),
    };
    set_shader_source(context, &shader, source);
    compile_shader_object(context, &shader);
    let status = shader_compile_status(context, &shader);
    let log = if status == Some(true) {
        None
    } else {
        shader_info_log(context, &shader)
    };
    status_result(shader, status, log, "Unknown error creating shader")
}

/// Links a vertex and a fragment shader into a program.
///
/// Whether linking succeeds is the context's decision; whatever it decides, a
/// failure comes back as an error with a non-empty diagnostic.
pub fn link_program(
    context: &WebGl2RenderingContext,
    vert_shader: &WebGlShader,
    frag_shader: &WebGlShader,
) -> (r: Result<WebGlProgram, String>)
    ensures
        r is Err ==> r->Err_0@.len() > 0,
{
    proof {
        reveal_strlit("Unable to create shader object");
        reveal_strlit("Unknown error creating program object");
    }
    let program = match create_program_object(context) {
        Some(p) => p,
        None => return Err("Unable to create shader object".to_string()),
    };
    attach_shader_object(context, &program, vert_shader);
    attach_shader_object(context, &program, frag_shader);
    link_program_object(context, &program);
    let status = program_link_status(context, &program);
    let log = if status == Some(true) {
        None
    } else {
        program_info_log(context, &program)
    };
    status_result(program, status, log, "Unknown error creating program object")
}

/// Relies on `WebGl2RenderingContext::get_attrib_location`: the location of the
/// named vertex attribute in the program, `-1` when it has none.
#[verifier::external_body]
fn attrib_location_raw(context: &WebGl2RenderingContext, program: &WebGlProgram, name: &str) -> (r:
    i32) {
    context.get_attrib_location(program, name)
}

/// Reads a raw attribute location: a negative value means the attribute is absent.
pub fn location_from_raw(raw: i32) -> (r: Option<u32>)
    ensures
        raw >= 0 <==> r is Some,
        r is Some ==> r->Some_0 == raw,
{
    if raw >= 0 {
        Some(raw as u32)
    } else {
        None
    }
}

/// The location of the vertex attribute `name` in `program`, or an error with a
/// non-empty diagnostic when the program has no such attribute.
pub fn get_attrib_location(context: &WebGl2RenderingContext, program: &WebGlProgram, name: &str) -> (r:
    Result<u32, String>)
    ensures
        r is Err ==> r->Err_0@.len() > 0,
{
    proof {
        reveal_strlit("No such vertex attribute");
    }
    match location_from_raw(attrib_location_raw(context, program, name)) {
        Some(location) => Ok(location),
        None => Err("No such vertex attribute".to_string()),
    }
}

} // verus!
