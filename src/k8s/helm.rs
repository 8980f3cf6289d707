//! Helm installs of the charts a registered cluster asks for.

use vstd::prelude::*;

use crate::text::{join, joined, views};
use crate::v0::Cluster;
use crate::v0::Helm as Chart;

verus! {

/// Whether to run `helm`, with the namespace and default state to install
/// with.
pub enum Helm {
    /// Print the commands for the operator to run.
    Skip { namespace: String, default_state: Option<String> },
    /// Run the commands.
    Do { namespace: String, default_state: Option<String> },
}

/// One `helm` command line: the arguments after the program name.
pub struct HelmCommand {
    pub args: Vec<String>,
}

/// What running one command gave.
pub struct HelmOutcome {
    pub success: bool,
    pub stdout: String,
    pub stderr: String,
}

/// `--set key=value` for each parameter, in order.
pub open spec fn set_args(params: Seq<(String, String)>) -> Seq<Seq<char>>
    decreases params.len(),
{
    if params.len() == 0 {
        Seq::empty()
    } else {
        set_args(params.drop_last()) + seq![
            "--set"@,
            params.last().0@ + "="@ + params.last().1@,
        ]
    }
}

/// The arguments that install `chart` in `namespace` for the cluster
/// `cluster`: the chart's own parameters, then the cluster's name and the
/// default state, if any.
pub open spec fn spec_install_args(
    chart: Chart,
    namespace: Seq<char>,
    cluster: Seq<char>,
    default_state: Option<Seq<char>>,
) -> Seq<Seq<char>> {
    seq![
        "install"@,
        chart.chart@,
        "--namespace"@,
        namespace,
        "--repo"@,
        chart.repo@,
        "--version"@,
        chart.version@,
        chart.chart@,
    ] + set_args(chart.parameters@) + seq!["--set"@, "cluster-name="@ + cluster] + match default_state {
        Some(d) => seq!["--set"@, "default-state="@ + d],
        None => Seq::empty(),
    }
}

impl HelmCommand {
    /// The command line as an operator would type it.
    pub open spec fn spec_show(&self) -> Seq<char> {
        joined(seq!["helm"@] + views(self.args@), " "@)
    }

    pub fn show(&self) -> (r: String)
        ensures
            r@ == self.spec_show(),
    {
        let mut parts: Vec<String> = Vec::new();
        parts.push(String::from_str("helm"));
        let mut i: usize = 0;
        while i < self.args.len()
            invariant
                i <= self.args@.len(),
                views(parts@) == seq!["helm"@] + views(self.args@.take(i as int)),
            decreases self.args@.len() - i,
        {
            let ghost before = parts@;
            parts.push(self.args[i].clone());
            assert(views(parts@) =~= views(before).push(self.args@[i as int]@));
            i = i + 1;
            assert(views(parts@) =~= seq!["helm"@] + views(self.args@.take(i as int)));
        }
        assert(self.args@.take(self.args@.len() as int) =~= self.args@);
        join(&parts, " ")
    }
}

/// The command lines, one per line.
pub open spec fn spec_show_all(commands: Seq<HelmCommand>) -> Seq<char> {
    joined(commands.map_values(|c: HelmCommand| c.spec_show()), "\n"@)
}

/// What running the commands prints: each command that succeeded with its
/// output, and each that failed with its error output.
pub open spec fn spec_run_report(commands: Seq<HelmCommand>, outcomes: Seq<HelmOutcome>) -> (Seq<char>, Seq<char>)
    decreases commands.len(),
{
    if commands.len() == 0 || outcomes.len() == 0 {
        (Seq::empty(), Seq::empty())
    } else {
        let (out, err) = spec_run_report(commands.drop_last(), outcomes.drop_last());
        let input = commands.last().spec_show();
        let o = outcomes.last();
        if o.success {
            (out + input + "\n"@ + o.stdout@ + "\n"@, err)
        } else {
            (out, err + "Running '"@ + input + "' failed\n"@ + o.stderr@ + "\n"@)
        }
    }
}

impl Helm {
    pub open spec fn spec_namespace(&self) -> Seq<char> {
        match self {
            Helm::Skip { namespace, .. } => namespace@,
            Helm::Do { namespace, .. } => namespace@,
        }
    }

    pub open spec fn spec_default_state(&self) -> Option<Seq<char>> {
        match self {
            Helm::Skip { default_state, .. } => match default_state {
                Some(d) => Some(d@),
                None => None,
            },
            Helm::Do { default_state, .. } => match default_state {
                Some(d) => Some(d@),
                None => None,
            },
        }
    }

    pub fn new(namespace: String, default_state: Option<String>, skip_helm: bool) -> (r: Helm)
        ensures
            r is Skip <==> skip_helm,
            r.spec_namespace() == namespace@,
            r.spec_default_state() == (match default_state {
                Some(d) => Some(d@),
                None => None::<Seq<char>>,
            }),
    {
        if skip_helm {
            Helm::Skip { namespace, default_state }
        } else {
            Helm::Do { namespace, default_state }
        }
    }

    /// The same settings, printing the commands instead of running them.
    pub fn skip(self) -> (r: Helm)
        ensures
            r is Skip,
            r.spec_namespace() == self.spec_namespace(),
            r.spec_default_state() == self.spec_default_state(),
    {
        match self {
            Helm::Do { namespace, default_state } => Helm::Skip { namespace, default_state },
            other => other,
        }
    }

    pub fn default_state(&self) -> (r: Option<&str>)
        ensures
            match r {
                Some(d) => self.spec_default_state() == Some(d@),
                None => self.spec_default_state() is None,
            },
    {
        match self {
            Helm::Skip { default_state, .. } => match default_state {
                Some(d) => Some(d.as_str()),
                None => None,
            },
            Helm::Do { default_state, .. } => match default_state {
                Some(d) => Some(d.as_str()),
                None => None,
            },
        }
    }

    pub fn namespace(&self) -> (r: &str)
        ensures
            r@ == self.spec_namespace(),
    {
        match self {
            Helm::Skip { namespace, .. } => namespace.as_str(),
            Helm::Do { namespace, .. } => namespace.as_str(),
        }
    }

    /// One install command per chart of the cluster, in order.
    pub fn command(&self, cluster: &Cluster) -> (r: Vec<HelmCommand>)
        ensures
            r@.len() == cluster.helm@.len(),
            forall|i: int|
                0 <= i < r@.len() ==> views((#[trigger] r@[i]).args@) == spec_install_args(
                    cluster.helm@[i],
                    self.spec_namespace(),
                    cluster.name.0@,
                    self.spec_default_state(),
                ),
    {
        let mut r: Vec<HelmCommand> = Vec::new();
        let mut i: usize = 0;
        while i < cluster.helm.len()
            invariant
                i <= cluster.helm@.len(),
                r@.len() == i,
                forall|k: int|
                    0 <= k < i ==> views((#[trigger] r@[k]).args@) == spec_install_args(
                        cluster.helm@[k],
                        self.spec_namespace(),
                        cluster.name.0@,
                        self.spec_default_state(),
                    ),
            decreases cluster.helm@.len() - i,
        {
            let args = self.install_args(&cluster.helm[i], cluster.name.as_str());
            r.push(HelmCommand { args });
            i = i + 1;
        }
        r
    }

    fn install_args(&self, chart: &Chart, cluster: &str) -> (r: Vec<String>)
        ensures
            views(r@) == spec_install_args(
                *chart,
                self.spec_namespace(),
                cluster@,
                self.spec_default_state(),
            ),
    {
        let mut r: Vec<String> = Vec::new();
        r.push(String::from_str("install"));
        r.push(chart.chart.clone());
        r.push(String::from_str("--namespace"));
        r.push(String::from_str(self.namespace()));
        r.push(String::from_str("--repo"));
        r.push(chart.repo.clone());
        r.push(String::from_str("--version"));
        r.push(chart.version.clone());
        r.push(chart.chart.clone());
        let ghost head = views(r@);
        assert(head =~= seq![
            "install"@,
            chart.chart@,
            "--namespace"@,
            self.spec_namespace(),
            "--repo"@,
            chart.repo@,
            "--version"@,
            chart.version@,
            chart.chart@,
        ]);
        let mut i: usize = 0;
        while i < chart.parameters.len()
            invariant
                i <= chart.parameters@.len(),
                views(r@) == head + set_args(chart.parameters@.take(i as int)),
            decreases chart.parameters@.len() - i,
        {
            let ghost before = r@;
            let (key, value) = &chart.parameters[i];
            let mut setting = key.clone();
            setting.append("=");
            setting.append(value.as_str());
            r.push(String::from_str("--set"));
            r.push(setting);
            let ghost taken = chart.parameters@.take(i + 1);
            assert(taken.drop_last() =~= chart.parameters@.take(i as int));
            assert(taken.last() == chart.parameters@[i as int]);
            assert(views(r@) =~= views(before) + seq!["--set"@, key@ + "="@ + value@]);
            i = i + 1;
        }
        assert(chart.parameters@.take(chart.parameters@.len() as int) =~= chart.parameters@);
        let ghost with_params = views(r@);
        let mut name = String::from_str("cluster-name=");
        name.append(cluster);
        r.push(String::from_str("--set"));
        r.push(name);
        let ghost with_name = views(r@);
        assert(with_name =~= with_params + seq!["--set"@, "cluster-name="@ + cluster@]);
        match self.default_state() {
            Some(d) => {
                let mut state = String::from_str("default-state=");
                state.append(d);
                r.push(String::from_str("--set"));
                r.push(state);
                assert(views(r@) =~= with_name + seq!["--set"@, "default-state="@ + d@]);
            },
            None => {
                assert(with_name + Seq::<Seq<char>>::empty() =~= with_name);
            },
        }
        r
    }

    /// What installing prints, as (output, errors). When skipping, nothing
    /// runs and the errors ask the operator to run the commands by hand;
    /// otherwise each command's outcome is reported and a failed command
    /// does not stop the others.
    pub fn report(&self, commands: &Vec<HelmCommand>, outcomes: &Vec<HelmOutcome>) -> (r: (
        String,
        String,
    ))
        requires
            self is Do ==> outcomes@.len() == commands@.len(),
        ensures
            self is Skip ==> r.0@ == Seq::<char>::empty() && r.1@ == "Manually run\n"@
                + spec_show_all(commands@),
            self is Do ==> (r.0@, r.1@) == spec_run_report(commands@, outcomes@),
    {
        match self {
            Helm::Skip { .. } => {
                let mut shown: Vec<String> = Vec::new();
                let mut i: usize = 0;
                while i < commands.len()
                    invariant
                        i <= commands@.len(),
                        views(shown@) == commands@.take(i as int).map_values(
                            |c: HelmCommand| c.spec_show(),
                        ),
                    decreases commands@.len() - i,
                {
                    let ghost before = shown@;
                    shown.push(commands[i].show());
                    assert(views(shown@) =~= views(before).push(commands@[i as int].spec_show()));
                    i = i + 1;
                    assert(views(shown@) =~= commands@.take(i as int).map_values(
                        |c: HelmCommand| c.spec_show(),
                    ));
                }
                assert(commands@.take(commands@.len() as int) =~= commands@);
                let mut err = String::from_str("Manually run\n");
                err.append(join(&shown, "\n").as_str());
                (String::new(), err)
            },
            Helm::Do { .. } => {
                let mut out = String::new();
                let mut err = String::new();
                let mut i: usize = 0;
                while i < commands.len()
                    invariant
                        i <= commands@.len(),
                        outcomes@.len() == commands@.len(),
                        (out@, err@) == spec_run_report(
                            commands@.take(i as int),
                            outcomes@.take(i as int),
                        ),
                    decreases commands@.len() - i,
                {
                    assert(commands@.take(i + 1).drop_last() =~= commands@.take(i as int));
                    assert(outcomes@.take(i + 1).drop_last() =~= outcomes@.take(i as int));
                    assert(commands@.take(i + 1).last() == commands@[i as int]);
                    assert(outcomes@.take(i + 1).last() == outcomes@[i as int]);
                    let input = commands[i].show();
                    let o = &outcomes[i];
                    if o.success {
                        out.append(input.as_str());
                        out.append("\n");
                        out.append(o.stdout.as_str());
                        out.append("\n");
                    } else {
                        err.append("Running '");
                        err.append(input.as_str());
                        err.append("' failed\n");
                        err.append(o.stderr.as_str());
                        err.append("\n");
                    }
                    i = i + 1;
                }
                assert(commands@.take(commands@.len() as int) =~= commands@);
                assert(outcomes@.take(outcomes@.len() as int) =~= outcomes@);
                (out, err)
            },
        }
    }
}

} // verus!
