use vstd::prelude::*;

verus! {

/// The platform family, which decides where a dependency environment keeps
/// its executables.
#[derive(Clone, Copy, PartialEq, Eq, Structural, Debug)]
pub enum Platform {
    Windows,
    Unix,
}

/// A filesystem path as its list of components, rooted at whatever the first
/// component names (for the application data directory: that directory).
pub struct DataPath {
    pub components: Vec<String>,
}

impl View for DataPath {
    type V = Seq<Seq<char>>;

    open spec fn view(&self) -> Seq<Seq<char>> {
        self.components@.map_values(|c: String| c@)
    }
}

impl DataPath {
    /// A path of one component.
    pub fn root(component: &str) -> (r: DataPath)
        ensures
            r@ == seq![component@],
    {
        let r = DataPath { components: vec![component.to_string()] };
        assert(r@ =~= seq![component@]);
        r
    }

    /// This path with `component` appended.
    pub fn join(&self, component: &str) -> (r: DataPath)
        ensures
            r@ == self@.push(component@),
    {
        let mut components: Vec<String> = Vec::new();
        let mut i: usize = 0;
        while i < self.components.len()
            invariant
                i <= self.components@.len(),
                components@.len() == i,
                forall|j: int| 0 <= j < i ==> components@[j]@ == self.components@[j]@,
            decreases self.components@.len() - i,
        {
            let c = self.components[i].clone();
            components.push(c);
            i += 1;
        }
        let last = component.to_string();
        components.push(last);
        let r = DataPath { components };
        assert(r@ =~= self@.push(component@));
        r
    }

    /// Number of components.
    pub fn len(&self) -> (r: usize)
        ensures
            r == self@.len(),
    {
        self.components.len()
    }

    /// The component at `i`.
    pub fn component(&self, i: usize) -> (r: &str)
        requires
            i < self@.len(),
        ensures
            r@ == self@[i as int],
    {
        self.components[i].as_str()
    }
}

/// Name of the dependency environment directory under the data directory.
pub open spec fn env_dir_name() -> Seq<char> {
    "venv"@
}

/// Components under the environment directory that lead to its interpreter.
pub open spec fn python_rel(platform: Platform) -> Seq<Seq<char>> {
    match platform {
        Platform::Windows => seq!["Scripts"@, "python.exe"@],
        Platform::Unix => seq!["bin"@, "python3"@],
    }
}

/// Components under the environment directory that lead to its package manager.
pub open spec fn pip_rel(platform: Platform) -> Seq<Seq<char>> {
    match platform {
        Platform::Windows => seq!["Scripts"@, "pip.exe"@],
        Platform::Unix => seq!["bin"@, "pip3"@],
    }
}

/// Where the weights of model `id` are kept: `models/<id>/weights/<filename>`.
pub open spec fn weights_rel(id: Seq<char>, filename: Seq<char>) -> Seq<Seq<char>> {
    seq!["models"@, id, "weights"@, filename]
}

/// The dependency environment directory, shared by all models.
pub fn env_dir(app_data_dir: &DataPath) -> (r: DataPath)
    ensures
        r@ == app_data_dir@.push(env_dir_name()),
{
    app_data_dir.join("venv")
}

fn bin_dir_name(platform: Platform) -> (r: &'static str)
    ensures
        r@ == python_rel(platform)[0],
        r@ == pip_rel(platform)[0],
{
    match platform {
        Platform::Windows => "Scripts",
        Platform::Unix => "bin",
    }
}

/// The interpreter and the package manager of the dependency environment.
pub fn get_venv_paths(app_data_dir: &DataPath, platform: Platform) -> (r: (DataPath, DataPath))
    ensures
        r.0@ == app_data_dir@.push(env_dir_name()) + python_rel(platform),
        r.1@ == app_data_dir@.push(env_dir_name()) + pip_rel(platform),
{
    let bin = env_dir(app_data_dir).join(bin_dir_name(platform));
    let (python, pip) = match platform {
        Platform::Windows => (bin.join("python.exe"), bin.join("pip.exe")),
        Platform::Unix => (bin.join("python3"), bin.join("pip3")),
    };
    assert(python@ =~= app_data_dir@.push(env_dir_name()) + python_rel(platform));
    assert(pip@ =~= app_data_dir@.push(env_dir_name()) + pip_rel(platform));
    (python, pip)
}

/// The interpreter of the dependency environment.
pub fn get_python_path(app_data_dir: &DataPath, platform: Platform) -> (r: DataPath)
    ensures
        r@ == app_data_dir@.push(env_dir_name()) + python_rel(platform),
{
    let bin = env_dir(app_data_dir).join(bin_dir_name(platform));
    let python = match platform {
        Platform::Windows => bin.join("python.exe"),
        Platform::Unix => bin.join("python3"),
    };
    assert(python@ =~= app_data_dir@.push(env_dir_name()) + python_rel(platform));
    python
}

/// The weights file of a model with the given id and file name.
pub fn weights_path(app_data_dir: &DataPath, id: &str, filename: &str) -> (r: DataPath)
    ensures
        r@ == app_data_dir@ + weights_rel(id@, filename@),
{
    let r = app_data_dir.join("models").join(id).join("weights").join(filename);
    assert(r@ =~= app_data_dir@ + weights_rel(id@, filename@));
    r
}

} // verus!
