use model_lifecycle::generation::{
    ChatChannel, FinishReason, GenAction, GenInput, GenerationSession, InferenceState, LoadError,
    MAX_NEW_TOKENS,
};
use model_lifecycle::install::{
    download_percent, pip_install_args, InstallAction, InstallInput, InstallPhase,
    InstallSession, InstallStatus,
};
use model_lifecycle::layout::{get_python_path, get_venv_paths, weights_path, DataPath, Platform};
use model_lifecycle::models::{
    find_model, get_available_models, parse_task_type, str_eq, TaskType, GIB,
};
use model_lifecycle::specs::{cuda_version_parts, meets_requirements, GpuInfo, SystemSpecs};
use model_lifecycle::supervisor::{
    LaunchAction, LaunchError, LaunchInput, LaunchSession, ServiceHandle, ServiceSlot,
    HEALTH_ATTEMPTS,
};

fn progress_of(s: &InstallSession) -> Vec<u64> {
    s.events().iter().map(|e| e.progress).collect()
}

fn statuses_of(s: &InstallSession) -> Vec<InstallStatus> {
    s.events().iter().map(|e| e.status).collect()
}

#[test]
fn catalog_has_four_unique_models() {
    let models = get_available_models();
    assert_eq!(models.len(), 4);
    let ids: Vec<&str> = models.iter().map(|m| m.id.as_str()).collect();
    assert_eq!(
        ids,
        vec!["tinyllama-1.1b-chat-gguf", "phi-2-gguf", "whisper-tiny", "llama-2-7b-chat-gguf"]
    );
    assert_eq!(models[0].requirements.min_ram, 2 * 1024 * 1024 * 1024);
    assert_eq!(models[2].python_packages, vec!["openai-whisper", "soundfile"]);
    assert_eq!(models[1].source.filename, "phi-2.Q4_K_M.gguf");
}

#[test]
fn find_model_by_id() {
    let models = get_available_models();
    assert_eq!(find_model(&models, "whisper-tiny"), Some(2));
    assert_eq!(find_model(&models, "phi-2-gguf"), Some(1));
    assert_eq!(find_model(&models, "no-such-model"), None);
    assert_eq!(find_model(&models, ""), None);
}

#[test]
fn string_equality() {
    assert!(str_eq("tiny-chat", "tiny-chat"));
    assert!(!str_eq("tiny-chat", "tiny-chaT"));
    assert!(!str_eq("tiny", "tiny-chat"));
    assert!(str_eq("", ""));
}

#[test]
fn task_types_parse() {
    assert_eq!(parse_task_type("text-generation"), Some(TaskType::TextGeneration));
    assert_eq!(parse_task_type("speech-to-text"), Some(TaskType::SpeechToText));
    assert_eq!(parse_task_type("image"), None);
}

fn data_dir() -> DataPath {
    DataPath::root("/data").join("app")
}

fn components(p: &DataPath) -> Vec<String> {
    (0..p.len()).map(|i| p.component(i).to_string()).collect()
}

#[test]
fn venv_paths_per_platform() {
    let (py, pip) = get_venv_paths(&data_dir(), Platform::Unix);
    assert_eq!(components(&py), vec!["/data", "app", "venv", "bin", "python3"]);
    assert_eq!(components(&pip), vec!["/data", "app", "venv", "bin", "pip3"]);
    let (py, pip) = get_venv_paths(&data_dir(), Platform::Windows);
    assert_eq!(components(&py), vec!["/data", "app", "venv", "Scripts", "python.exe"]);
    assert_eq!(components(&pip), vec!["/data", "app", "venv", "Scripts", "pip.exe"]);
    let py = get_python_path(&data_dir(), Platform::Windows);
    assert_eq!(components(&py), vec!["/data", "app", "venv", "Scripts", "python.exe"]);
}

#[test]
fn weights_file_layout() {
    let p = weights_path(&data_dir(), "tiny-chat", "tiny.gguf");
    assert_eq!(
        components(&p),
        vec!["/data", "app", "models", "tiny-chat", "weights", "tiny.gguf"]
    );
}

#[test]
fn percent_values() {
    assert_eq!(download_percent(0, 1000), 0);
    assert_eq!(download_percent(100, 1000), 10);
    assert_eq!(download_percent(999, 1000), 99);
    assert_eq!(download_percent(1000, 1000), 100);
    assert_eq!(download_percent(5000, 1000), 100);
    assert_eq!(download_percent(1, 3), 33);
    assert_eq!(download_percent(u64::MAX - 1, u64::MAX), 99);
}

fn ok_chunks(s: &mut InstallSession, n: usize, len: u64) {
    for _ in 0..n {
        assert_eq!(s.next_action(), InstallAction::ReadChunk);
        s.advance(InstallInput::ChunkWritten(Ok(len)));
    }
}

#[test]
fn tiny_chat_install_then_reinstall() {
    // First install: environment present, weights absent, 1000 bytes in 100-byte chunks.
    let mut s = InstallSession::start(false, true);
    assert_eq!(s.next_action(), InstallAction::StartDownload);
    s.advance(InstallInput::DownloadStarted(Ok(Some(1000))));
    ok_chunks(&mut s, 10, 100);
    s.advance(InstallInput::DownloadEnded);
    assert_eq!(s.next_action(), InstallAction::InstallDeps);
    s.advance(InstallInput::DepsInstalled(Ok(())));
    assert_eq!(s.next_action(), InstallAction::Finish);
    assert_eq!(
        progress_of(&s),
        vec![0, 10, 20, 30, 40, 50, 60, 70, 80, 90, 100, 100, 100]
    );
    let st = statuses_of(&s);
    assert_eq!(st[0], InstallStatus::Downloading);
    assert_eq!(st[10], InstallStatus::Downloading);
    assert_eq!(st[11], InstallStatus::InstallingDeps);
    assert_eq!(*st.last().unwrap(), InstallStatus::Completed);

    // Second install: the weights file now exists.
    let s2 = InstallSession::start(true, true);
    assert_eq!(s2.next_action(), InstallAction::Finish);
    assert_eq!(statuses_of(&s2), vec![InstallStatus::Completed]);
    assert_eq!(progress_of(&s2), vec![100]);
    assert_eq!(s2.events()[0].message, "Installation finished! Ready to Launch.");
}

#[test]
fn reinstall_ignores_further_input() {
    let mut s = InstallSession::start(true, false);
    s.advance(InstallInput::DownloadStarted(Ok(Some(10))));
    s.advance(InstallInput::ChunkWritten(Ok(10)));
    assert_eq!(s.event_count(), 1);
    assert_eq!(s.phase(), InstallPhase::Completed);
}

#[test]
fn progress_never_decreases_with_uneven_chunks() {
    let mut s = InstallSession::start(false, false);
    assert_eq!(s.next_action(), InstallAction::CreateEnv);
    s.advance(InstallInput::EnvCreated(Ok(())));
    s.advance(InstallInput::DownloadStarted(Ok(Some(7))));
    for len in [1u64, 1, 0, 3, 2] {
        s.advance(InstallInput::ChunkWritten(Ok(len)));
    }
    s.advance(InstallInput::DownloadEnded);
    s.advance(InstallInput::DepsInstalled(Ok(())));
    let p = progress_of(&s);
    assert_eq!(p, vec![0, 0, 14, 28, 71, 100, 100, 100]);
    for w in p.windows(2) {
        assert!(w[0] <= w[1]);
    }
    assert_eq!(statuses_of(&s)[0], InstallStatus::InstallingDeps);
    assert_eq!(s.events()[0].message, "Creating virtual environment...");
}

#[test]
fn unknown_length_reports_no_chunk_progress() {
    let mut s = InstallSession::start(false, true);
    s.advance(InstallInput::DownloadStarted(Ok(None)));
    ok_chunks(&mut s, 3, 100);
    assert_eq!(s.event_count(), 1);
    s.advance(InstallInput::DownloadEnded);
    s.advance(InstallInput::DepsInstalled(Ok(())));
    assert_eq!(progress_of(&s), vec![0, 0, 100]);
}

#[test]
fn install_errors_end_the_run() {
    let mut s = InstallSession::start(false, false);
    s.advance(InstallInput::EnvCreated(Err("no python".to_string())));
    assert_eq!(s.next_action(), InstallAction::Abort);
    let last = s.events().last().unwrap();
    assert_eq!(last.status, InstallStatus::Error);
    assert_eq!(last.message, "Venv creation failed: no python");

    let mut s = InstallSession::start(false, true);
    s.advance(InstallInput::DownloadStarted(Err("offline".to_string())));
    assert_eq!(s.events().last().unwrap().message, "Failed to request model: offline");

    let mut s = InstallSession::start(false, true);
    s.advance(InstallInput::DownloadStarted(Ok(Some(200))));
    s.advance(InstallInput::ChunkWritten(Ok(100)));
    s.advance(InstallInput::ChunkWritten(Err("reset".to_string())));
    let last = s.events().last().unwrap();
    assert_eq!(last.message, "Chunk error: reset");
    assert_eq!(last.progress, 50);
    assert_eq!(s.phase(), InstallPhase::Failed);

    let mut s = InstallSession::start(false, true);
    s.advance(InstallInput::DownloadStarted(Ok(Some(0))));
    s.advance(InstallInput::DownloadEnded);
    s.advance(InstallInput::DepsInstalled(Err("exit 1".to_string())));
    assert_eq!(s.events().last().unwrap().message, "Dependency error: exit 1");
    assert_eq!(s.next_action(), InstallAction::Abort);
}

#[test]
fn status_names() {
    assert_eq!(InstallStatus::Downloading.as_str(), "downloading");
    assert_eq!(InstallStatus::InstallingDeps.as_str(), "installing_deps");
    assert_eq!(InstallStatus::Completed.as_str(), "completed");
    assert_eq!(InstallStatus::Error.as_str(), "error");
}

#[test]
fn pip_arguments() {
    assert!(pip_install_args(&vec![]).is_none());
    let args = pip_install_args(&vec!["uvicorn".to_string(), "fastapi".to_string()]).unwrap();
    assert_eq!(args, vec!["install", "uvicorn", "fastapi"]);
}

#[test]
fn slot_keeps_one_owner_over_launches() {
    let mut slot = ServiceSlot::new();
    let mut retired = Vec::new();
    for pid in 1..=5u32 {
        if let Some(h) = slot.release() {
            retired.push(h.pid);
        }
        if let Some(h) = slot.supersede(ServiceHandle { pid, port: 9000 + pid as u16 }) {
            retired.push(h.pid);
        }
    }
    assert_eq!(retired, vec![1, 2, 3, 4]);
    assert_eq!(slot.current(), Some(ServiceHandle { pid: 5, port: 9005 }));
}

fn launch_until_probing(port: u16) -> LaunchSession {
    let mut l = LaunchSession::new();
    assert_eq!(l.next_action(), LaunchAction::ReleaseCurrent);
    l.advance(LaunchInput::Released);
    assert_eq!(l.next_action(), LaunchAction::Resolve);
    l.advance(LaunchInput::Resolved { model_present: true, env_present: true, port: Some(port) });
    assert_eq!(l.next_action(), LaunchAction::Spawn { port });
    l.advance(LaunchInput::Spawned(Ok(42)));
    l
}

#[test]
fn health_check_times_out_after_budget() {
    let mut l = launch_until_probing(8123);
    let mut probes = 0;
    while l.next_action() == (LaunchAction::WaitThenProbe { port: 8123 }) {
        let status = if probes % 2 == 0 { None } else { Some(503) };
        l.advance(LaunchInput::Probed(status));
        probes += 1;
        assert!(probes <= 100);
    }
    assert_eq!(probes, HEALTH_ATTEMPTS);
    assert_eq!(l.next_action(), LaunchAction::TerminateAndFail);
    assert!(matches!(l.error(), Some(LaunchError::HealthCheckTimeout)));
    assert_eq!(l.error().unwrap().message(), "Server timed out. Check logs.");
}

#[test]
fn health_check_success_reports_port() {
    let mut l = launch_until_probing(8200);
    for _ in 0..27 {
        l.advance(LaunchInput::Probed(None));
    }
    l.advance(LaunchInput::Probed(Some(302)));
    assert_eq!(l.next_action(), LaunchAction::WaitThenProbe { port: 8200 });
    l.advance(LaunchInput::Probed(Some(199)));
    assert_eq!(l.ready_port(), None);
    l.advance(LaunchInput::Probed(Some(204)));
    assert_eq!(l.next_action(), LaunchAction::Ready { port: 8200 });
    assert_eq!(l.ready_port(), Some(8200));
}

#[test]
fn launch_failures() {
    let mut l = LaunchSession::new();
    l.advance(LaunchInput::Released);
    l.advance(LaunchInput::Resolved { model_present: false, env_present: true, port: Some(1) });
    assert!(matches!(l.error(), Some(LaunchError::ModelNotInstalled)));
    assert_eq!(l.next_action(), LaunchAction::Fail);

    let mut l = LaunchSession::new();
    l.advance(LaunchInput::Released);
    l.advance(LaunchInput::Resolved { model_present: true, env_present: false, port: Some(1) });
    assert!(matches!(l.error(), Some(LaunchError::EnvironmentMissing)));

    let mut l = LaunchSession::new();
    l.advance(LaunchInput::Released);
    l.advance(LaunchInput::Resolved { model_present: true, env_present: true, port: None });
    assert!(matches!(l.error(), Some(LaunchError::NoFreePort)));

    let mut l = LaunchSession::new();
    l.advance(LaunchInput::Released);
    l.advance(LaunchInput::Resolved { model_present: true, env_present: true, port: Some(7) });
    l.advance(LaunchInput::Spawned(Err("denied".to_string())));
    assert_eq!(l.error().unwrap().message(), "Failed to start python server: denied");
    assert_eq!(l.ready_port(), None);
}

fn start_generation(n_prompt: u32) -> GenerationSession {
    let mut g = GenerationSession::new();
    assert_eq!(g.next_action(), GenAction::Tokenize);
    g.advance(GenInput::Tokenized(Ok(n_prompt)));
    assert_eq!(g.next_action(), GenAction::DecodePrompt { n_prompt });
    g.advance(GenInput::Decoded(Ok(())));
    g
}

#[test]
fn generation_stops_at_bound() {
    let mut g = start_generation(5);
    let mut steps = 0u32;
    while g.next_action() == GenAction::SampleNext {
        g.advance(GenInput::Sampled { token: 7, is_eos: false });
        assert_eq!(g.next_action(), GenAction::EmitAndDecode { token: 7, position: 5 + steps });
        g.advance(GenInput::Decoded(Ok(())));
        steps += 1;
        assert!(steps <= 1000);
    }
    assert_eq!(g.emitted().len(), MAX_NEW_TOKENS as usize);
    assert_eq!(g.next_action(), GenAction::Finish);
    assert!(matches!(g.finish_reason(), Some(FinishReason::MaxTokens)));
}

#[test]
fn generation_stops_at_eos_without_emitting_it() {
    let mut g = start_generation(3);
    for t in [11, 12] {
        g.advance(GenInput::Sampled { token: t, is_eos: false });
        g.advance(GenInput::Decoded(Ok(())));
    }
    g.advance(GenInput::Sampled { token: 2, is_eos: true });
    assert_eq!(g.emitted(), &vec![11, 12]);
    assert!(matches!(g.finish_reason(), Some(FinishReason::EndOfSequence)));
    g.advance(GenInput::Sampled { token: 13, is_eos: false });
    assert_eq!(g.emitted().len(), 2);
}

#[test]
fn generation_errors_finish_once() {
    let mut g = GenerationSession::new();
    g.advance(GenInput::Tokenized(Err("bad utf8".to_string())));
    assert!(matches!(g.finish_reason(), Some(FinishReason::Tokenization(ref m)) if m == "bad utf8"));
    assert_eq!(g.next_action(), GenAction::Finish);

    let mut g = GenerationSession::new();
    g.advance(GenInput::Tokenized(Ok(0)));
    assert!(matches!(g.finish_reason(), Some(FinishReason::PromptSize)));
    let mut g = GenerationSession::new();
    g.advance(GenInput::Tokenized(Ok(513)));
    assert!(matches!(g.finish_reason(), Some(FinishReason::PromptSize)));

    let mut g = start_generation(4);
    g.advance(GenInput::Sampled { token: 9, is_eos: false });
    g.advance(GenInput::Decoded(Err("kv full".to_string())));
    assert!(matches!(g.finish_reason(), Some(FinishReason::Decode(ref m)) if m == "kv full"));
    assert_eq!(g.emitted(), &vec![9]);
}

#[test]
fn load_replaces_only_on_success() {
    let mut st = InferenceState::new();
    assert!(st.loaded_path().is_none());
    assert!(st.load_model("/m/a.gguf".to_string(), true, Ok(()), Ok(())).is_ok());
    assert_eq!(st.loaded_path().unwrap(), "/m/a.gguf");
    let r = st.load_model("/m/b.gguf".to_string(), true, Ok(()), Err("oom".to_string()));
    assert!(matches!(r, Err(LoadError::Context(ref m)) if m == "oom"));
    assert_eq!(st.loaded_path().unwrap(), "/m/a.gguf");
    let r = st.load_model("/m/c.gguf".to_string(), false, Ok(()), Ok(()));
    assert!(matches!(r, Err(LoadError::NotFound)));
    let r = st.load_model("/m/d.gguf".to_string(), true, Err("corrupt".to_string()), Ok(()));
    assert!(matches!(r, Err(LoadError::Model(_))));
    assert_eq!(st.loaded_path().unwrap(), "/m/a.gguf");
}

#[test]
fn cuda_version_and_requirements() {
    assert_eq!(cuda_version_parts(12020), (12, 2));
    assert_eq!(cuda_version_parts(11080), (11, 8));
    let specs = SystemSpecs {
        os_name: "Linux".to_string(),
        os_version: "6".to_string(),
        cpu_model: "x".to_string(),
        cpu_cores: 8,
        total_memory: 4 * GIB,
        used_memory: 0,
        gpus: vec![GpuInfo {
            name: "g".to_string(),
            vram_total: 2 * GIB,
            vram_used: 0,
            driver_version: None,
            cuda_version: None,
        }],
    };
    assert!(meets_requirements(&specs, 2 * GIB, GIB));
    assert!(!meets_requirements(&specs, 2 * GIB, 3 * GIB));
    assert!(!meets_requirements(&specs, 8 * GIB, 0));
    assert!(meets_requirements(&specs, 4 * GIB, 0));
}

#[test]
fn second_generation_waits_for_first_to_finish() {
    let mut channel = ChatChannel::new();
    assert!(channel.acquire(1));
    assert!(!channel.acquire(2));
    assert!(channel.deliver(1, false));
    assert!(!channel.deliver(2, false));
    assert!(channel.deliver(1, false));
    assert!(!channel.deliver(2, true));
    assert_eq!(channel.holder(), Some(1));
    assert!(channel.deliver(1, true));
    assert_eq!(channel.holder(), None);
    assert!(!channel.deliver(1, false));
    assert!(channel.acquire(2));
    assert!(channel.acquire(2));
    assert!(channel.deliver(2, false));
    assert!(channel.deliver(2, true));
}
