//! The plan: the missions to run and the optional shell, with their container options.

use vstd::prelude::*;

verus! {

/// Where a container's image comes from.
#[derive(Debug, Clone, PartialEq, Eq)]
pub enum ImageOrBuild {
    /// Use this image tag.
    Image { image: String },
    /// Build the image from the context directory given in `build`.
    Build { build: String },
    /// Build the image in the current directory from the Dockerfile text given in `recipe`.
    Recipe { recipe: String },
}

/// The mathematical value of an [`ImageOrBuild`].
pub enum ImageSpec {
    Image { tag: Seq<char> },
    Build { context: Seq<char> },
    Recipe { dockerfile: Seq<char> },
}

impl View for ImageOrBuild {
    type V = ImageSpec;

    open spec fn view(&self) -> ImageSpec {
        match self {
            ImageOrBuild::Image { image } => ImageSpec::Image { tag: image@ },
            ImageOrBuild::Build { build } => ImageSpec::Build { context: build@ },
            ImageOrBuild::Recipe { recipe } => ImageSpec::Recipe { dockerfile: recipe@ },
        }
    }
}

/// The default of `forward_user`: a container runs as its own default user.
pub fn false_() -> (forward: bool)
    ensures
        !forward,
{
    false
}

/// How a container is run.
#[derive(Debug, Clone, PartialEq, Eq)]
pub struct Container {
    pub image_or_build: ImageOrBuild,
    /// Work as the current user in the container instead of its default one (typically root).
    pub forward_user: bool,
    /// Additional volumes to mount, each written `host:container`.
    pub volumes: Vec<String>,
    /// Environment variables to set, each written `KEY=VALUE`.
    pub environment: Vec<String>,
}

/// The mathematical value of a [`Container`].
pub struct ContainerOptions {
    pub image: ImageSpec,
    pub forward_user: bool,
    pub volumes: Seq<Seq<char>>,
    pub environment: Seq<Seq<char>>,
}

impl View for Container {
    type V = ContainerOptions;

    open spec fn view(&self) -> ContainerOptions {
        ContainerOptions {
            image: self.image_or_build@,
            forward_user: self.forward_user,
            volumes: self.volumes.deep_view(),
            environment: self.environment.deep_view(),
        }
    }
}

impl Container {
    /// Options for `image_or_build` with every other setting at its default:
    /// the user is not forwarded, and no volume or variable is added.
    pub fn new(image_or_build: ImageOrBuild) -> (container: Container)
        ensures
            container@ == (ContainerOptions {
                image: image_or_build@,
                forward_user: false,
                volumes: Seq::empty(),
                environment: Seq::empty(),
            }),
    {
        let container = Container {
            image_or_build,
            forward_user: false_(),
            volumes: Vec::new(),
            environment: Vec::new(),
        };
        assert(container.environment.deep_view() =~= Seq::empty());
        container
    }
}

/// A named task: a script, and the container that it runs in.
#[derive(Debug, Clone, PartialEq, Eq)]
pub struct Mission {
    pub container: Container,
    /// Shell text, handed to the container on its standard input.
    pub script: String,
}

/// The mathematical value of a [`Mission`].
pub struct MissionSpec {
    pub options: ContainerOptions,
    pub script: Seq<char>,
}

impl View for Mission {
    type V = MissionSpec;

    open spec fn view(&self) -> MissionSpec {
        MissionSpec { options: self.container@, script: self.script@ }
    }
}

/// The container of the interactive shell.
#[derive(Debug, Clone, PartialEq, Eq)]
pub struct Shell {
    pub container: Container,
}

impl View for Shell {
    type V = ContainerOptions;

    open spec fn view(&self) -> ContainerOptions {
        self.container@
    }
}

/// The root of the plan: the missions by name, in the order in which they are
/// traversed, and the shell if one is defined.
#[derive(Debug, Clone, PartialEq, Eq)]
pub struct Plan {
    pub missions: Vec<(String, Mission)>,
    pub shell: Option<Shell>,
}

/// The names of `missions`, in order.
pub open spec fn names(missions: Seq<(String, Mission)>) -> Seq<Seq<char>> {
    Seq::new(missions.len(), |i: int| missions[i].0@)
}

/// The name at index `at` also stands at an earlier index.
pub open spec fn repeats(names: Seq<Seq<char>>, at: int) -> bool {
    exists|earlier: int| 0 <= earlier < at && names[earlier] == names[at]
}

/// No name occurs twice.
pub open spec fn distinct(names: Seq<Seq<char>>) -> bool {
    forall|at: int| 0 <= at < names.len() ==> !repeats(names, at)
}

/// A plan that cannot be used as it is written.
#[derive(Debug, Clone, PartialEq, Eq)]
pub enum ConfigError {
    /// Two missions have this name.
    DuplicateMission { name: String },
    /// The shell was asked for, and the plan defines none.
    MissingShell,
}

impl Plan {
    /// The names of the missions, in traversal order.
    pub open spec fn names(&self) -> Seq<Seq<char>> {
        names(self.missions@)
    }

    /// The names of the missions are the keys of a mapping: none occurs twice.
    pub open spec fn wf(&self) -> bool {
        distinct(self.names())
    }

    /// The plan made of the entries of a plan file: its missions, in the order
    /// in which they will be traversed, and its shell.
    ///
    /// The entries are kept as they are. Where a name occurs twice they are
    /// refused, with the first name that repeats an earlier one.
    pub fn from_file(missions: Vec<(String, Mission)>, shell: Option<Shell>) -> (result: Result<
        Plan,
        ConfigError,
    >)
        ensures
            result is Ok <==> distinct(names(missions@)),
            result matches Ok(plan) ==> plan.missions == missions && plan.shell == shell
                && plan.wf(),
            result matches Err(error) ==> exists|at: int|
                {
                    &&& 0 <= at < missions.len()
                    &&& #[trigger] repeats(names(missions@), at)
                    &&& forall|before: int| 0 <= before < at ==> !repeats(names(missions@), before)
                    &&& error matches ConfigError::DuplicateMission { name }
                    &&& name@ == missions[at].0@
                },
    {
        let ghost all = names(missions@);
        let mut at: usize = 0;
        while at < missions.len()
            invariant
                at <= missions.len(),
                all == names(missions@),
                forall|before: int| 0 <= before < at ==> !repeats(all, before),
            decreases missions.len() - at,
        {
            let mut earlier: usize = 0;
            while earlier < at
                invariant
                    earlier <= at < missions.len(),
                    all == names(missions@),
                    forall|before: int| 0 <= before < at ==> !repeats(all, before),
                    forall|i: int| 0 <= i < earlier ==> all[i] != all[at as int],
                decreases at - earlier,
            {
                if missions[earlier].0 == missions[at].0 {
                    assert(all[earlier as int] == all[at as int]);
                    assert(repeats(all, at as int));
                    return Err(ConfigError::DuplicateMission { name: missions[at].0.clone() });
                }
                earlier += 1;
            }
            at += 1;
        }
        Ok(Plan { missions, shell })
    }
}

} // verus!
