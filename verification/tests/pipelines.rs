use d9s::pipelines::{pipelines_from_repositories, PipelineNode, RepositoryNode};
use d9s::views::Pipeline;

fn node(name: &str, asset: bool, location: &str, statuses: &[&str]) -> PipelineNode {
    PipelineNode {
        name: name.to_string(),
        is_asset_job: asset,
        repository_location_name: location.to_string(),
        run_statuses: statuses.iter().map(|s| s.to_string()).collect(),
    }
}

fn summary(p: &Pipeline) -> (String, bool, String, Option<String>) {
    (p.name.clone(), p.is_asset_job, p.repository_location.clone(), p.last_run_status.clone())
}

#[test]
fn pipelines_of_all_repositories_in_order() {
    let repositories = vec![
        RepositoryNode {
            name: "one".to_string(),
            pipelines: vec![
                node("etl", false, "warehouse", &["SUCCESS", "FAILURE"]),
                node("__ASSET_JOB", true, "warehouse", &["SUCCESS"]),
                node("ml", false, "lab", &[]),
            ],
        },
        RepositoryNode { name: "empty".to_string(), pipelines: Vec::new() },
        RepositoryNode {
            name: "two".to_string(),
            pipelines: vec![node("report", false, "bi", &["QUEUED"])],
        },
    ];
    let pipelines = pipelines_from_repositories(&repositories);
    let got: Vec<_> = pipelines.iter().map(summary).collect();
    assert_eq!(
        got,
        vec![
            ("etl".to_string(), false, "warehouse".to_string(), Some("SUCCESS".to_string())),
            ("ml".to_string(), false, "lab".to_string(), None),
            ("report".to_string(), false, "bi".to_string(), Some("QUEUED".to_string())),
        ]
    );
}

#[test]
fn no_repositories_no_pipelines() {
    assert!(pipelines_from_repositories(&Vec::new()).is_empty());
    let only_assets = vec![RepositoryNode {
        name: "r".to_string(),
        pipelines: vec![node("a", true, "l", &[]), node("b", true, "l", &["SUCCESS"])],
    }];
    assert!(pipelines_from_repositories(&only_assets).is_empty());
}

#[test]
fn default_pipeline_is_empty() {
    let p = Pipeline::default();
    assert_eq!(summary(&p), (String::new(), false, String::new(), None));
    assert_eq!(summary(&p.clone()), summary(&p));
}
