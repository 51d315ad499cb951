//! Compiling, linking and releasing against a driver that counts its calls.

use gl_plan::{
    check_c_text, compile_shader, create_c_string_buffer, link_program, use_program, Call,
    ProgramLink, Reply, Shader, ShaderCompilation, ShaderProgram,
};

const VERTEX_STAGE: u32 = 0x8B31;
const FRAGMENT_STAGE: u32 = 0x8B30;

/// A stand-in for the driver. It compiles any source that does not hold the
/// word `bad`, links any program that a vertex and a fragment shader are
/// attached to, and keeps count of what lives and what was released.
struct CountingDriver {
    next_handle: u32,
    shaders: Vec<(u32, u32, Vec<u8>, bool)>,
    programs: Vec<(u32, bool)>,
    attached: Vec<(u32, u32)>,
    stages_at_link: Vec<u32>,
    shader_releases: Vec<u32>,
    program_releases: Vec<u32>,
    made: Vec<Call>,
}

impl CountingDriver {
    fn new() -> CountingDriver {
        CountingDriver {
            next_handle: 1,
            shaders: Vec::new(),
            programs: Vec::new(),
            attached: Vec::new(),
            stages_at_link: Vec::new(),
            shader_releases: Vec::new(),
            program_releases: Vec::new(),
            made: Vec::new(),
        }
    }

    fn shader_log(&self, shader: u32) -> Vec<u8> {
        let compiled = self.shaders.iter().any(|entry| entry.0 == shader && entry.3);
        if compiled {
            Vec::new()
        } else {
            b"ERROR: 0:1: syntax error\0".to_vec()
        }
    }

    fn program_log(&self, program: u32) -> Vec<u8> {
        let linked = self.programs.iter().any(|entry| entry.0 == program && entry.1);
        if linked {
            Vec::new()
        } else {
            b"ERROR: a required stage is missing\0".to_vec()
        }
    }

    fn fill(mut buffer: Vec<u8>, capacity: i32, log: &[u8]) -> Vec<u8> {
        let room = (capacity as usize).min(buffer.len());
        let written = room.min(log.len());
        buffer[..written].copy_from_slice(&log[..written]);
        if written > 0 {
            buffer[written - 1] = 0;
        }
        buffer
    }

    fn perform(&mut self, call: Call) -> Reply {
        let reply = match &call {
            Call::CreateShader { stage } => {
                let handle = self.next_handle;
                self.next_handle += 1;
                self.shaders.push((handle, *stage, Vec::new(), false));
                Reply::Handle(handle)
            }
            Call::ShaderSource { shader, source } => {
                for entry in self.shaders.iter_mut() {
                    if entry.0 == *shader {
                        entry.2 = source.clone();
                    }
                }
                Reply::Nothing
            }
            Call::CompileShader { shader } => {
                for entry in self.shaders.iter_mut() {
                    if entry.0 == *shader {
                        entry.3 = !entry.2.windows(3).any(|word| word == b"bad");
                    }
                }
                Reply::Nothing
            }
            Call::GetCompileStatus { shader } => {
                let compiled = self.shaders.iter().any(|entry| entry.0 == *shader && entry.3);
                Reply::Value(if compiled { 1 } else { 0 })
            }
            Call::GetShaderLogLength { shader } => {
                Reply::Value(self.shader_log(*shader).len() as i32)
            }
            Call::GetShaderInfoLog { shader, capacity, buffer } => {
                let log = self.shader_log(*shader);
                Reply::Text(CountingDriver::fill(buffer.clone(), *capacity, &log))
            }
            Call::DeleteShader { shader } => {
                self.shaders.retain(|entry| entry.0 != *shader);
                self.shader_releases.push(*shader);
                Reply::Nothing
            }
            Call::CreateProgram => {
                let handle = self.next_handle;
                self.next_handle += 1;
                self.programs.push((handle, false));
                Reply::Handle(handle)
            }
            Call::AttachShader { program, shader } => {
                self.attached.push((*program, *shader));
                Reply::Nothing
            }
            Call::LinkProgram { program } => {
                let mut stages: Vec<u32> = Vec::new();
                for pair in self.attached.iter() {
                    if pair.0 == *program {
                        for entry in self.shaders.iter() {
                            if entry.0 == pair.1 {
                                stages.push(entry.1);
                            }
                        }
                    }
                }
                let complete = stages.contains(&VERTEX_STAGE) && stages.contains(&FRAGMENT_STAGE);
                for entry in self.programs.iter_mut() {
                    if entry.0 == *program {
                        entry.1 = complete;
                    }
                }
                self.stages_at_link = stages;
                Reply::Nothing
            }
            Call::DetachShader { program, shader } => {
                self.attached.retain(|pair| *pair != (*program, *shader));
                Reply::Nothing
            }
            Call::GetLinkStatus { program } => {
                let linked = self.programs.iter().any(|entry| entry.0 == *program && entry.1);
                Reply::Value(if linked { 1 } else { 0 })
            }
            Call::GetProgramLogLength { program } => {
                Reply::Value(self.program_log(*program).len() as i32)
            }
            Call::GetProgramInfoLog { program, capacity, buffer } => {
                let log = self.program_log(*program);
                Reply::Text(CountingDriver::fill(buffer.clone(), *capacity, &log))
            }
            Call::DeleteProgram { program } => {
                self.programs.retain(|entry| entry.0 != *program);
                self.program_releases.push(*program);
                Reply::Nothing
            }
            Call::GetUniformLocation { name, .. } => {
                Reply::Value(if name.as_slice() == b"used" { 3 } else { -1 })
            }
            _ => Reply::Nothing,
        };
        self.made.push(call);
        reply
    }

    fn perform_all(&mut self, calls: Vec<Call>) -> Reply {
        let mut reply = Reply::Nothing;
        for call in calls {
            reply = self.perform(call);
        }
        reply
    }

    fn compile(&mut self, source: &[u8], stage: u32) -> Result<Shader, String> {
        let (mut compilation, mut calls): (ShaderCompilation, Vec<Call>) =
            compile_shader(source.to_vec(), stage);
        loop {
            let reply = self.perform_all(calls);
            if compilation.finished() {
                return compilation.outcome().unwrap();
            }
            let (next, batch) = compilation.step(reply).unwrap();
            compilation = next;
            calls = batch;
        }
    }

    fn link(&mut self, shaders: &[Shader]) -> Result<ShaderProgram, String> {
        let (mut link, mut calls): (ProgramLink, Vec<Call>) = link_program(shaders);
        loop {
            let reply = self.perform_all(calls);
            if link.finished() {
                return link.outcome().unwrap();
            }
            let (next, batch) = link.step(reply).unwrap();
            link = next;
            calls = batch;
        }
    }
}

#[test]
fn buffer_of_five_is_five_blanks() {
    assert_eq!(create_c_string_buffer(5), b"     ".to_vec());
}

#[test]
fn buffer_of_zero_is_empty() {
    assert_eq!(create_c_string_buffer(0), Vec::<u8>::new());
}

#[test]
fn c_text_has_no_zero_byte() {
    assert!(check_c_text(b"void main() {}"));
    assert!(check_c_text(b""));
    assert!(!check_c_text(b"void\0main"));
    assert!(!check_c_text(b"\0"));
}

#[test]
fn compilation_opens_with_the_creation_of_the_shader() {
    let (compilation, calls) = compile_shader(b"void main() {}".to_vec(), VERTEX_STAGE);
    assert_eq!(calls, vec![Call::CreateShader { stage: VERTEX_STAGE }]);
    assert!(!compilation.finished());
    assert!(compilation.outcome().is_none());
}

#[test]
fn from_str_starts_as_compile_shader_does() {
    let (_, calls) = Shader::from_str("void main() {}", FRAGMENT_STAGE);
    assert_eq!(calls, vec![Call::CreateShader { stage: FRAGMENT_STAGE }]);
    let (compilation, _) = Shader::from_str("void main() {}", FRAGMENT_STAGE);
    let (_, calls) = compilation.step(Reply::Handle(4)).unwrap();
    assert_eq!(
        calls,
        vec![
            Call::ShaderSource { shader: 4, source: b"void main() {}".to_vec() },
            Call::CompileShader { shader: 4 },
            Call::GetCompileStatus { shader: 4 },
        ]
    );
}

#[test]
fn successful_compilation_step_by_step() {
    let (compilation, _) = compile_shader(b"void main() {}".to_vec(), VERTEX_STAGE);
    let (compilation, calls) = compilation.step(Reply::Handle(7)).unwrap();
    assert_eq!(
        calls,
        vec![
            Call::ShaderSource { shader: 7, source: b"void main() {}".to_vec() },
            Call::CompileShader { shader: 7 },
            Call::GetCompileStatus { shader: 7 },
        ]
    );
    assert!(!compilation.finished());
    let (compilation, calls) = compilation.step(Reply::Value(1)).unwrap();
    assert_eq!(calls, Vec::<Call>::new());
    assert!(compilation.finished());
    let shader = compilation.outcome().unwrap().unwrap();
    assert_eq!(shader.id(), 7);
    assert_eq!(shader.stage(), VERTEX_STAGE);
}

#[test]
fn any_status_but_zero_is_success() {
    let (compilation, _) = compile_shader(Vec::new(), VERTEX_STAGE);
    let (compilation, _) = compilation.step(Reply::Handle(2)).unwrap();
    let (compilation, _) = compilation.step(Reply::Value(-1)).unwrap();
    assert_eq!(compilation.outcome().unwrap().unwrap().id(), 2);
}

#[test]
fn failed_compilation_step_by_step() {
    let (compilation, _) = compile_shader(b"bad".to_vec(), FRAGMENT_STAGE);
    let (compilation, _) = compilation.step(Reply::Handle(7)).unwrap();
    let (compilation, calls) = compilation.step(Reply::Value(0)).unwrap();
    assert_eq!(calls, vec![Call::GetShaderLogLength { shader: 7 }]);
    let (compilation, calls) = compilation.step(Reply::Value(4)).unwrap();
    assert_eq!(
        calls,
        vec![Call::GetShaderInfoLog { shader: 7, capacity: 4, buffer: b"    ".to_vec() }]
    );
    assert!(!compilation.finished());
    let (compilation, calls) = compilation.step(Reply::Text(b"bad\0".to_vec())).unwrap();
    assert_eq!(calls, vec![Call::DeleteShader { shader: 7 }]);
    assert!(compilation.finished());
    assert_eq!(compilation.outcome().unwrap().unwrap_err(), "bad\0");
}

#[test]
fn a_log_that_is_not_utf8_is_decoded_with_replacements() {
    let (compilation, _) = compile_shader(Vec::new(), VERTEX_STAGE);
    let (compilation, _) = compilation.step(Reply::Handle(1)).unwrap();
    let (compilation, _) = compilation.step(Reply::Value(0)).unwrap();
    let (compilation, _) = compilation.step(Reply::Value(3)).unwrap();
    let (compilation, _) = compilation.step(Reply::Text(vec![b'a', 0xFF, b'b'])).unwrap();
    assert_eq!(compilation.outcome().unwrap().unwrap_err(), "a\u{FFFD}b");
}

#[test]
fn an_empty_log_gives_an_empty_message() {
    let (compilation, _) = compile_shader(Vec::new(), VERTEX_STAGE);
    let (compilation, _) = compilation.step(Reply::Handle(1)).unwrap();
    let (compilation, _) = compilation.step(Reply::Value(0)).unwrap();
    let (compilation, calls) = compilation.step(Reply::Value(0)).unwrap();
    assert_eq!(
        calls,
        vec![Call::GetShaderInfoLog { shader: 1, capacity: 0, buffer: Vec::new() }]
    );
    let (compilation, _) = compilation.step(Reply::Text(Vec::new())).unwrap();
    assert_eq!(compilation.outcome().unwrap().unwrap_err(), "");
}

#[test]
fn a_reply_of_the_wrong_sort_is_not_taken() {
    let (compilation, _) = compile_shader(Vec::new(), VERTEX_STAGE);
    assert!(compilation.step(Reply::Value(1)).is_none());
    let (compilation, _) = compile_shader(Vec::new(), VERTEX_STAGE);
    assert!(compilation.step(Reply::Nothing).is_none());
    let (compilation, _) = compile_shader(Vec::new(), VERTEX_STAGE);
    let (compilation, _) = compilation.step(Reply::Handle(1)).unwrap();
    assert!(compilation.step(Reply::Handle(2)).is_none());
    let (compilation, _) = compile_shader(Vec::new(), VERTEX_STAGE);
    let (compilation, _) = compilation.step(Reply::Handle(1)).unwrap();
    let (compilation, _) = compilation.step(Reply::Value(0)).unwrap();
    let (compilation, _) = compilation.step(Reply::Value(2)).unwrap();
    assert!(compilation.step(Reply::Value(2)).is_none());
}

#[test]
fn a_negative_log_length_is_not_taken() {
    let (compilation, _) = compile_shader(Vec::new(), VERTEX_STAGE);
    let (compilation, _) = compilation.step(Reply::Handle(1)).unwrap();
    let (compilation, _) = compilation.step(Reply::Value(0)).unwrap();
    assert!(compilation.step(Reply::Value(-1)).is_none());
    let (link, _) = link_program(&[]);
    let (link, _) = link.step(Reply::Handle(1)).unwrap();
    let (link, _) = link.step(Reply::Value(0)).unwrap();
    assert!(link.step(Reply::Value(-5)).is_none());
}

#[test]
fn a_finished_compilation_takes_no_reply() {
    let (compilation, _) = compile_shader(Vec::new(), VERTEX_STAGE);
    let (compilation, _) = compilation.step(Reply::Handle(1)).unwrap();
    let (compilation, _) = compilation.step(Reply::Value(1)).unwrap();
    assert!(compilation.step(Reply::Nothing).is_none());
}

#[test]
fn valid_source_compiles_to_a_shader_that_lives() {
    let mut driver = CountingDriver::new();
    let shader = driver.compile(b"void main() {}", VERTEX_STAGE).unwrap();
    assert_eq!(shader.id(), 1);
    assert_eq!(driver.shaders.len(), 1);
    assert_eq!(driver.shader_releases, Vec::<u32>::new());
    assert_eq!(
        driver.made,
        vec![
            Call::CreateShader { stage: VERTEX_STAGE },
            Call::ShaderSource { shader: 1, source: b"void main() {}".to_vec() },
            Call::CompileShader { shader: 1 },
            Call::GetCompileStatus { shader: 1 },
        ]
    );
}

#[test]
fn invalid_source_gives_a_message_that_is_not_empty() {
    let mut driver = CountingDriver::new();
    let message = driver.compile(b"this is bad", FRAGMENT_STAGE).unwrap_err();
    assert!(!message.is_empty());
    assert_eq!(message, "ERROR: 0:1: syntax error\0");
}

#[test]
fn failed_compilation_releases_its_shader_object_once() {
    let mut driver = CountingDriver::new();
    assert!(driver.compile(b"bad", VERTEX_STAGE).is_err());
    assert_eq!(driver.shader_releases, vec![1]);
    assert!(driver.shaders.is_empty());
    assert_eq!(driver.made.last(), Some(&Call::DeleteShader { shader: 1 }));
}

#[test]
fn releasing_a_shader_releases_its_handle_once() {
    let mut driver = CountingDriver::new();
    let shader = driver.compile(b"void main() {}", VERTEX_STAGE).unwrap();
    assert_eq!(shader.id(), 1);
    let call = shader.release();
    assert_eq!(call, Call::DeleteShader { shader: 1 });
    driver.perform(call);
    assert_eq!(driver.shader_releases, vec![1]);
    assert!(driver.shaders.is_empty());
}

#[test]
fn link_opens_with_the_creation_of_the_program() {
    let (link, calls) = link_program(&[]);
    assert_eq!(calls, vec![Call::CreateProgram]);
    assert!(!link.finished());
    assert!(link.outcome().is_none());
}

#[test]
fn link_attaches_links_and_detaches_before_it_asks() {
    let mut driver = CountingDriver::new();
    let vertex = driver.compile(b"void main() {}", VERTEX_STAGE).unwrap();
    let fragment = driver.compile(b"void main() {}", FRAGMENT_STAGE).unwrap();
    let (link, _) = link_program(&[vertex, fragment]);
    let (link, calls) = link.step(Reply::Handle(9)).unwrap();
    assert_eq!(
        calls,
        vec![
            Call::AttachShader { program: 9, shader: 1 },
            Call::AttachShader { program: 9, shader: 2 },
            Call::LinkProgram { program: 9 },
            Call::DetachShader { program: 9, shader: 1 },
            Call::DetachShader { program: 9, shader: 2 },
            Call::GetLinkStatus { program: 9 },
        ]
    );
    let (link, calls) = link.step(Reply::Value(1)).unwrap();
    assert_eq!(calls, Vec::<Call>::new());
    assert!(link.finished());
    assert_eq!(link.outcome().unwrap().unwrap().id(), 9);
}

#[test]
fn link_of_no_shaders_only_links_and_asks() {
    let (link, _) = link_program(&[]);
    let (_, calls) = link.step(Reply::Handle(3)).unwrap();
    assert_eq!(
        calls,
        vec![Call::LinkProgram { program: 3 }, Call::GetLinkStatus { program: 3 }]
    );
}

#[test]
fn failed_link_step_by_step() {
    let (link, _) = link_program(&[]);
    let (link, _) = link.step(Reply::Handle(3)).unwrap();
    let (link, calls) = link.step(Reply::Value(0)).unwrap();
    assert_eq!(calls, vec![Call::GetProgramLogLength { program: 3 }]);
    let (link, calls) = link.step(Reply::Value(2)).unwrap();
    assert_eq!(
        calls,
        vec![Call::GetProgramInfoLog { program: 3, capacity: 2, buffer: b"  ".to_vec() }]
    );
    let (link, calls) = link.step(Reply::Text(b"no".to_vec())).unwrap();
    assert_eq!(calls, vec![Call::DeleteProgram { program: 3 }]);
    assert!(link.finished());
    assert_eq!(link.outcome().unwrap().unwrap_err(), "no");
}

#[test]
fn shaders_that_compile_link_to_a_program() {
    let mut driver = CountingDriver::new();
    let vertex = driver.compile(b"void main() {}", VERTEX_STAGE).unwrap();
    let fragment = driver.compile(b"void main() {}", FRAGMENT_STAGE).unwrap();
    let shaders = [vertex, fragment];
    let program = driver.link(&shaders).unwrap();
    assert_eq!(program.id(), 3);
    assert_eq!(driver.stages_at_link, vec![VERTEX_STAGE, FRAGMENT_STAGE]);
    assert!(driver.attached.is_empty());
    assert_eq!(driver.program_releases, Vec::<u32>::new());
    assert_eq!(driver.shader_releases, Vec::<u32>::new());
    assert_eq!(shaders[0].id(), 1);
    assert_eq!(shaders[1].id(), 2);
}

#[test]
fn link_without_a_required_stage_gives_a_message_that_is_not_empty() {
    let mut driver = CountingDriver::new();
    let vertex = driver.compile(b"void main() {}", VERTEX_STAGE).unwrap();
    let shaders = [vertex];
    let message = driver.link(&shaders).unwrap_err();
    assert!(!message.is_empty());
    assert_eq!(message, "ERROR: a required stage is missing\0");
}

#[test]
fn failed_link_releases_its_program_object_once_and_no_shader() {
    let mut driver = CountingDriver::new();
    let vertex = driver.compile(b"void main() {}", VERTEX_STAGE).unwrap();
    let shaders = [vertex];
    assert!(driver.link(&shaders).is_err());
    assert_eq!(driver.program_releases, vec![2]);
    assert!(driver.programs.is_empty());
    assert_eq!(driver.shader_releases, Vec::<u32>::new());
    assert_eq!(driver.shaders.len(), 1);
    assert!(driver.attached.is_empty());
}

#[test]
fn releasing_a_program_releases_its_handle_once() {
    let mut driver = CountingDriver::new();
    let vertex = driver.compile(b"void main() {}", VERTEX_STAGE).unwrap();
    let fragment = driver.compile(b"void main() {}", FRAGMENT_STAGE).unwrap();
    let shaders = [vertex, fragment];
    let program = driver.link(&shaders).unwrap();
    let call = program.release();
    assert_eq!(call, Call::DeleteProgram { program: 3 });
    driver.perform(call);
    assert_eq!(driver.program_releases, vec![3]);
    assert!(driver.programs.is_empty());
    let [vertex, fragment] = shaders;
    driver.perform(vertex.release());
    driver.perform(fragment.release());
    assert_eq!(driver.shader_releases, vec![1, 2]);
    assert!(driver.shaders.is_empty());
}

#[test]
fn use_program_names_the_program() {
    let mut driver = CountingDriver::new();
    let vertex = driver.compile(b"void main() {}", VERTEX_STAGE).unwrap();
    let fragment = driver.compile(b"void main() {}", FRAGMENT_STAGE).unwrap();
    let program = driver.link(&[vertex, fragment]).unwrap();
    assert_eq!(use_program(&program), Call::UseProgram { program: 3 });
    assert_eq!(program.use_program(), Call::UseProgram { program: 3 });
}

#[test]
fn uniform_lookups_are_stable_and_tell_used_from_unused() {
    let mut driver = CountingDriver::new();
    let vertex = driver.compile(b"void main() {}", VERTEX_STAGE).unwrap();
    let fragment = driver.compile(b"void main() {}", FRAGMENT_STAGE).unwrap();
    let program = driver.link(&[vertex, fragment]).unwrap();
    let first = program.get_uniform(b"used".to_vec());
    let second = program.get_uniform(b"used".to_vec());
    assert_eq!(first, Call::GetUniformLocation { program: 3, name: b"used".to_vec() });
    assert_eq!(first, second);
    let found = driver.perform(first);
    assert_eq!(found, Reply::Value(3));
    assert_eq!(driver.perform(second), found);
    let unused = program.get_uniform(b"unused".to_vec());
    assert_eq!(driver.perform(unused), Reply::Value(-1));
}
