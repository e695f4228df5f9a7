use vstd::prelude::*;

verus! {

/// Advisory resource figures of a model, in bytes. Nothing enforces them.
pub struct ModelRequirements {
    pub min_ram: u64,
    pub min_vram: u64,
    pub disk_space: u64,
}

/// Where the weights of a model come from, and the file name they are kept under.
pub struct ModelSource {
    pub url: String,
    pub filename: String,
}

/// One immutable catalog entry.
pub struct ModelConfig {
    pub id: String,
    pub name: String,
    pub description: String,
    pub version: String,
    pub task_type: String,
    pub requirements: ModelRequirements,
    pub source: ModelSource,
    pub python_packages: Vec<String>,
}

pub const GIB: u64 = 1073741824;

pub const MIB: u64 = 1048576;

/// No two entries share an id.
pub open spec fn ids_unique(models: Seq<ModelConfig>) -> bool {
    forall|i: int, j: int|
        0 <= i < models.len() && 0 <= j < models.len() && i != j ==> models[i].id@
            != models[j].id@
}

/// A file name that stays inside the directory it is joined to: not empty, no
/// separator, and neither `.` nor `..`.
pub open spec fn safe_filename(s: Seq<char>) -> bool {
    &&& s.len() > 0
    &&& forall|i: int| 0 <= i < s.len() ==> s[i] != '/' && s[i] != '\\'
    &&& s != seq!['.']
    &&& s != seq!['.', '.']
}

/// Every entry is keyed uniquely and names a weights file without path components.
pub open spec fn catalog_wf(models: Seq<ModelConfig>) -> bool {
    &&& ids_unique(models)
    &&& forall|i: int| 0 <= i < models.len() ==> safe_filename(#[trigger] models[i].source.filename@)
}

fn owned(s: &str) -> (r: String)
    ensures
        r@ == s@,
{
    s.to_string()
}

fn llama_server_packages() -> (r: Vec<String>)
    ensures
        package_names(r@) == llama_server_deps(),
{
    let r = vec![owned("llama-cpp-python"), owned("uvicorn"), owned("fastapi")];
    assert(package_names(r@) =~= llama_server_deps());
    r
}

/// The package names of a list of packages.
pub open spec fn package_names(packages: Seq<String>) -> Seq<Seq<char>> {
    packages.map_values(|p: String| p@)
}

/// The packages that the llama.cpp-based service needs.
pub open spec fn llama_server_deps() -> Seq<Seq<char>> {
    seq!["llama-cpp-python"@, "uvicorn"@, "fastapi"@]
}

/// The built-in catalog of installable models.
pub fn get_available_models() -> (r: Vec<ModelConfig>)
    ensures
        r@.len() == 4,
        catalog_wf(r@),
        r@[0].id@ == "tinyllama-1.1b-chat-gguf"@,
        r@[0].source.filename@ == "tinyllama-1.1b-chat-v1.0.Q4_K_M.gguf"@,
        r@[0].task_type@ == "text-generation"@,
        r@[0].requirements.min_ram == 2 * GIB,
        r@[0].requirements.disk_space == 700 * MIB,
        package_names(r@[0].python_packages@) == llama_server_deps(),
        r@[0].source.url@
            == "https://huggingface.co/TheBloke/TinyLlama-1.1B-Chat-v1.0-GGUF/resolve/main/tinyllama-1.1b-chat-v1.0.Q4_K_M.gguf"@,
        r@[1].id@ == "phi-2-gguf"@,
        r@[1].source.filename@ == "phi-2.Q4_K_M.gguf"@,
        r@[1].task_type@ == "text-generation"@,
        r@[1].requirements.min_ram == 4 * GIB,
        package_names(r@[1].python_packages@) == llama_server_deps(),
        r@[1].source.url@
            == "https://huggingface.co/TheBloke/phi-2-GGUF/resolve/main/phi-2.Q4_K_M.gguf"@,
        r@[2].id@ == "whisper-tiny"@,
        r@[2].source.filename@ == "ggml-tiny.bin"@,
        r@[2].task_type@ == "speech-to-text"@,
        r@[2].requirements.min_vram == 0,
        package_names(r@[2].python_packages@) == seq!["openai-whisper"@, "soundfile"@],
        r@[2].source.url@
            == "https://huggingface.co/ggerganov/whisper.cpp/resolve/master/ggml-tiny.bin"@,
        r@[3].id@ == "llama-2-7b-chat-gguf"@,
        r@[3].source.filename@ == "llama-2-7b-chat.Q4_K_M.gguf"@,
        r@[3].task_type@ == "text-generation"@,
        r@[3].requirements.min_ram == 8 * GIB,
        package_names(r@[3].python_packages@) == llama_server_deps(),
        r@[3].source.url@
            == "https://huggingface.co/TheBloke/Llama-2-7B-Chat-GGUF/resolve/main/llama-2-7b-chat.Q4_K_M.gguf"@,
{
    let tinyllama = ModelConfig {
        id: owned("tinyllama-1.1b-chat-gguf"),
        name: owned("TinyLlama 1.1B Chat"),
        description: owned(
            "Super lightweight & fast. Runs on almost any laptop (even without GPU). Perfect for basic chat.",
        ),
        version: owned("v1.0-Q4_K_M"),
        task_type: owned("text-generation"),
        requirements: ModelRequirements {
            min_ram: 2 * GIB,
            min_vram: 1 * GIB,
            disk_space: 700 * MIB,
        },
        source: ModelSource {
            url: owned(
                "https://huggingface.co/TheBloke/TinyLlama-1.1B-Chat-v1.0-GGUF/resolve/main/tinyllama-1.1b-chat-v1.0.Q4_K_M.gguf",
            ),
            filename: owned("tinyllama-1.1b-chat-v1.0.Q4_K_M.gguf"),
        },
        python_packages: llama_server_packages(),
    };
    let phi = ModelConfig {
        id: owned("phi-2-gguf"),
        name: owned("Microsoft Phi-2"),
        description: owned(
            "Surprisingly powerful for its size (2.7B). Good reasoning capabilities. Runs well on 8GB RAM.",
        ),
        version: owned("Q4_K_M"),
        task_type: owned("text-generation"),
        requirements: ModelRequirements {
            min_ram: 4 * GIB,
            min_vram: 3 * GIB,
            disk_space: 2 * GIB,
        },
        source: ModelSource {
            url: owned("https://huggingface.co/TheBloke/phi-2-GGUF/resolve/main/phi-2.Q4_K_M.gguf"),
            filename: owned("phi-2.Q4_K_M.gguf"),
        },
        python_packages: llama_server_packages(),
    };
    let whisper = ModelConfig {
        id: owned("whisper-tiny"),
        name: owned("Whisper Tiny"),
        description: owned(
            "OpenAI's lightweight speech recognition model. Extremely fast and runs on almost any CPU. Great for testing.",
        ),
        version: owned("tiny"),
        task_type: owned("speech-to-text"),
        requirements: ModelRequirements { min_ram: 1 * GIB, min_vram: 0, disk_space: 100 * MIB },
        source: ModelSource {
            url: owned("https://huggingface.co/ggerganov/whisper.cpp/resolve/master/ggml-tiny.bin"),
            filename: owned("ggml-tiny.bin"),
        },
        python_packages: vec![owned("openai-whisper"), owned("soundfile")],
    };
    assert(package_names(whisper.python_packages@) =~= seq!["openai-whisper"@, "soundfile"@]);
    let llama2 = ModelConfig {
        id: owned("llama-2-7b-chat-gguf"),
        name: owned("Llama 2 7B Chat"),
        description: owned(
            "A quantized LLM optimized for chat. Good balance of performance and resource usage.",
        ),
        version: owned("Q4_K_M"),
        task_type: owned("text-generation"),
        requirements: ModelRequirements {
            min_ram: 8 * GIB,
            min_vram: 6 * GIB,
            disk_space: 5 * GIB,
        },
        source: ModelSource {
            url: owned(
                "https://huggingface.co/TheBloke/Llama-2-7B-Chat-GGUF/resolve/main/llama-2-7b-chat.Q4_K_M.gguf",
            ),
            filename: owned("llama-2-7b-chat.Q4_K_M.gguf"),
        },
        python_packages: llama_server_packages(),
    };
    proof {
        reveal_strlit("tinyllama-1.1b-chat-gguf");
        reveal_strlit("phi-2-gguf");
        reveal_strlit("whisper-tiny");
        reveal_strlit("llama-2-7b-chat-gguf");
        reveal_strlit("tinyllama-1.1b-chat-v1.0.Q4_K_M.gguf");
        reveal_strlit("phi-2.Q4_K_M.gguf");
        reveal_strlit("ggml-tiny.bin");
        reveal_strlit("llama-2-7b-chat.Q4_K_M.gguf");
    }
    let r = vec![tinyllama, phi, whisper, llama2];
    assert(r@[0].id@.len() == 24);
    assert(r@[1].id@.len() == 10);
    assert(r@[2].id@.len() == 12);
    assert(r@[3].id@.len() == 20);
    assert(ids_unique(r@));
    assert(safe_filename(r@[0].source.filename@));
    assert(safe_filename(r@[1].source.filename@));
    assert(safe_filename(r@[2].source.filename@));
    assert(safe_filename(r@[3].source.filename@));
    assert(catalog_wf(r@));
    r
}

/// Position of the first entry whose id is `id`, or `None` when no entry has it.
pub fn find_model(models: &Vec<ModelConfig>, id: &str) -> (r: Option<usize>)
    ensures
        match r {
            Some(i) => i < models@.len() && models@[i as int].id@ == id@ && forall|j: int|
                0 <= j < i ==> models@[j].id@ != id@,
            None => forall|j: int| 0 <= j < models@.len() ==> models@[j].id@ != id@,
        },
{
    let mut i: usize = 0;
    while i < models.len()
        invariant
            i <= models@.len(),
            forall|j: int| 0 <= j < i ==> models@[j].id@ != id@,
        decreases models@.len() - i,
    {
        if str_eq(models[i].id.as_str(), id) {
            return Some(i);
        }
        i += 1;
    }
    None
}

/// Character-wise equality of two strings.
pub fn str_eq(a: &str, b: &str) -> (r: bool)
    ensures
        r == (a@ == b@),
{
    let n = a.unicode_len();
    if n != b.unicode_len() {
        return false;
    }
    let mut i: usize = 0;
    while i < n
        invariant
            n == a@.len(),
            n == b@.len(),
            i <= n,
            forall|j: int| 0 <= j < i ==> a@[j] == b@[j],
        decreases n - i,
    {
        if a.get_char(i) != b.get_char(i) {
            return false;
        }
        i += 1;
    }
    assert(a@ =~= b@);
    true
}

/// The kind of work a model does, which selects the engine that runs it.
#[derive(Clone, Copy, PartialEq, Eq, Structural, Debug)]
pub enum TaskType {
    TextGeneration,
    SpeechToText,
}

pub open spec fn task_type_name(t: TaskType) -> Seq<char> {
    match t {
        TaskType::TextGeneration => "text-generation"@,
        TaskType::SpeechToText => "speech-to-text"@,
    }
}

/// The task type that a catalog entry names, or `None` for a name no engine serves.
pub fn parse_task_type(s: &str) -> (r: Option<TaskType>)
    ensures
        match r {
            Some(t) => task_type_name(t) == s@,
            None => forall|t: TaskType| task_type_name(t) != s@,
        },
{
    if str_eq(s, "text-generation") {
        Some(TaskType::TextGeneration)
    } else if str_eq(s, "speech-to-text") {
        Some(TaskType::SpeechToText)
    } else {
        proof {
            assert forall|t: TaskType| task_type_name(t) != s@ by {
                match t {
                    TaskType::TextGeneration => {},
                    TaskType::SpeechToText => {},
                }
            }
        }
        None
    }
}

} // verus!
