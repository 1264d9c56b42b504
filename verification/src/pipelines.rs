//! From what the service reports of its repositories to the pipelines that
//! the dashboard lists.

use vstd::prelude::*;
use crate::views::{Pipeline, PipelineModel};

verus! {

/// A pipeline as a repository reports it.
#[derive(Debug)]
pub struct PipelineNode {
    pub name: String,
    pub is_asset_job: bool,
    /// The name of the location that the pipeline's repository comes from.
    pub repository_location_name: String,
    /// The statuses of the runs of the pipeline that were reported, the
    /// latest first.
    pub run_statuses: Vec<String>,
}

/// A reported pipeline as a mathematical value.
pub struct PipelineNodeModel {
    pub name: Seq<char>,
    pub is_asset_job: bool,
    pub repository_location_name: Seq<char>,
    pub run_statuses: Seq<Seq<char>>,
}

impl View for PipelineNode {
    type V = PipelineNodeModel;

    open spec fn view(&self) -> PipelineNodeModel {
        PipelineNodeModel {
            name: self.name@,
            is_asset_job: self.is_asset_job,
            repository_location_name: self.repository_location_name@,
            run_statuses: self.run_statuses.deep_view(),
        }
    }
}

impl DeepView for PipelineNode {
    type V = PipelineNodeModel;

    open spec fn deep_view(&self) -> PipelineNodeModel {
        self@
    }
}

/// A repository with its pipelines, as the service reports it.
#[derive(Debug)]
pub struct RepositoryNode {
    pub name: String,
    pub pipelines: Vec<PipelineNode>,
}

/// A reported repository as a mathematical value.
pub struct RepositoryNodeModel {
    pub name: Seq<char>,
    pub pipelines: Seq<PipelineNodeModel>,
}

impl View for RepositoryNode {
    type V = RepositoryNodeModel;

    open spec fn view(&self) -> RepositoryNodeModel {
        RepositoryNodeModel { name: self.name@, pipelines: self.pipelines.deep_view() }
    }
}

impl DeepView for RepositoryNode {
    type V = RepositoryNodeModel;

    open spec fn deep_view(&self) -> RepositoryNodeModel {
        self@
    }
}

/// The pipeline that a reported pipeline stands for: its name, its
/// location, and the status of its latest run if a run was reported.
pub open spec fn pipeline_of(node: PipelineNodeModel) -> PipelineModel {
    PipelineModel {
        name: node.name,
        is_asset_job: node.is_asset_job,
        repository_location: node.repository_location_name,
        last_run_status: if node.run_statuses.len() > 0 {
            Some(node.run_statuses[0])
        } else {
            None
        },
    }
}

/// The reported pipelines that are listed: those that are not asset jobs.
pub open spec fn wanted() -> spec_fn(PipelineNodeModel) -> bool {
    |node: PipelineNodeModel| !node.is_asset_job
}

/// The pipelines of one repository.
pub open spec fn repository_pipelines(nodes: Seq<PipelineNodeModel>) -> Seq<PipelineModel> {
    nodes.filter(wanted()).map_values(|node: PipelineNodeModel| pipeline_of(node))
}

/// The pipelines of the repositories, repository by repository.
pub open spec fn all_pipelines(repositories: Seq<RepositoryNodeModel>) -> Seq<PipelineModel>
    decreases repositories.len(),
{
    if repositories.len() == 0 {
        Seq::empty()
    } else {
        all_pipelines(repositories.drop_last()) + repository_pipelines(
            repositories.last().pipelines,
        )
    }
}

/// The pipelines that the dashboard lists, from the repositories that the
/// service reports.
pub fn pipelines_from_repositories(repositories: &Vec<RepositoryNode>) -> (r: Vec<Pipeline>)
    ensures
        r.deep_view() == all_pipelines(repositories.deep_view()),
        forall|i: int| 0 <= i < r.len() ==> !(#[trigger] r[i]).is_asset_job,
{
    let mut out: Vec<Pipeline> = Vec::new();
    let ghost model = repositories.deep_view();
    let ghost convert = |node: PipelineNodeModel| pipeline_of(node);
    let mut i: usize = 0;
    assert(out.deep_view() =~= Seq::<PipelineModel>::empty());
    assert(model.take(0) =~= Seq::<RepositoryNodeModel>::empty());
    while i < repositories.len()
        invariant
            i <= repositories.len(),
            model == repositories.deep_view(),
            out.deep_view() == all_pipelines(model.take(i as int)),
            forall|k: int| 0 <= k < out.len() ==> !(#[trigger] out[k]).is_asset_job,
        decreases repositories.len() - i,
    {
        let repository = &repositories[i];
        let ghost before = out.deep_view();
        let ghost nodes = repository.pipelines.deep_view();
        let mut j: usize = 0;
        proof {
            reveal(Seq::filter);
            assert(model.take(i + 1).drop_last() =~= model.take(i as int));
            assert(model.take(i + 1).last().pipelines == nodes);
            assert(nodes.take(0) =~= Seq::<PipelineNodeModel>::empty());
            assert(before + repository_pipelines(nodes.take(0)) =~= before);
        }
        while j < repository.pipelines.len()
            invariant
                j <= repository.pipelines.len(),
                nodes == repository.pipelines.deep_view(),
                out.deep_view() == before + repository_pipelines(nodes.take(j as int)),
                forall|k: int| 0 <= k < out.len() ==> !(#[trigger] out[k]).is_asset_job,
            decreases repository.pipelines.len() - j,
        {
            let node = &repository.pipelines[j];
            let ghost seen = nodes.take(j as int);
            proof {
                reveal(Seq::filter);
                assert(nodes.take(j + 1) =~= seen.push(node@));
                assert(seen.push(node@).drop_last() =~= seen);
            }
            if !node.is_asset_job {
                let last_run_status = if node.run_statuses.len() > 0 {
                    assert(node.run_statuses.deep_view()[0] == node.run_statuses[0]@);
                    Some(node.run_statuses[0].clone())
                } else {
                    None
                };
                let ghost so_far = out.deep_view();
                let ghost old_out = out@;
                out.push(
                    Pipeline {
                        name: node.name.clone(),
                        is_asset_job: node.is_asset_job,
                        repository_location: node.repository_location_name.clone(),
                        last_run_status,
                    },
                );
                proof {
                    assert(out.deep_view() =~= so_far.push(pipeline_of(node@)));
                    assert(so_far.push(pipeline_of(node@)) =~= before + repository_pipelines(
                        seen.push(node@),
                    ));
                    assert forall|k: int| 0 <= k < out.len() implies !(
                    #[trigger] out[k]).is_asset_job by {
                        if k < old_out.len() {
                            assert(out[k] == old_out[k]);
                        }
                    }
                }
            }
            j += 1;
        }
        assert(nodes.take(repository.pipelines.len() as int) =~= nodes);
        i += 1;
    }
    assert(model.take(repositories.len() as int) =~= model);
    out
}

} // verus!
