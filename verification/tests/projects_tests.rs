use mcp_router::sql::{CellType, ColumnError, ColumnProblem};
use mcp_router::error::AppError;
use mcp_router::models::CreateProjectRequest;
use mcp_router::projects::{
    ProjectService, DELETE_PROJECT_SQL, FIND_PROJECT_SQL, INSERT_PROJECT_SQL, LIST_PROJECTS_SQL,
    RENAME_PROJECT_SQL, SET_OPTIMIZATION_SQL, UNASSIGN_PROJECT_SQL,
};
use mcp_router::sql::SqlValue;

fn text(s: &str) -> SqlValue {
    SqlValue::Text(s.to_string())
}

fn project_row(id: &str, optimization: Option<&str>) -> Vec<SqlValue> {
    vec![
        text(id),
        text("Team"),
        match optimization {
            Some(o) => text(o),
            None => SqlValue::Null,
        },
        text("C"),
        text("U"),
    ]
}

#[test]
fn new_project_statement_and_record() {
    let req = CreateProjectRequest { name: "Team".to_string(), optimization: None };
    let plan = ProjectService::new_project(&req, "p-1".to_string(), "T".to_string());
    assert_eq!(plan.statement.sql, INSERT_PROJECT_SQL);
    assert_eq!(plan.statement.params, vec![text("p-1"), text("Team"), SqlValue::Null, text("T"), text("T")]);
    assert_eq!(plan.project.name, "Team");
    assert_eq!(plan.project.optimization, None);
    // what the insert stores reads back as the project
    assert_eq!(ProjectService::project_from_row(&plan.statement.params), Some(plan.project.clone()));
}

#[test]
fn create_project_uses_fresh_id() {
    let req = CreateProjectRequest { name: "A".to_string(), optimization: Some("fast".to_string()) };
    let a = ProjectService::create_project(&req);
    let b = ProjectService::create_project(&req);
    assert_eq!(a.project.id.len(), 36);
    assert_ne!(a.project.id, b.project.id);
    assert_eq!(a.statement.params[2], text("fast"));
}

#[test]
fn project_rows_decode() {
    let p = ProjectService::project_from_row(&project_row("p", Some("o"))).unwrap();
    assert_eq!(p.optimization, Some("o".to_string()));
    assert_eq!(p.created_at, "C");
    let mut bad = project_row("p", None);
    bad[2] = SqlValue::Integer(1);
    assert_eq!(ProjectService::project_from_row(&bad), None);
    assert_eq!(ProjectService::project_from_row(&vec![text("p")]), None);
}

#[test]
fn list_and_get_projects() {
    assert_eq!(ProjectService::list_projects_statement().sql, LIST_PROJECTS_SQL);
    let rows = vec![project_row("a", None), project_row("b", Some("x"))];
    let ps = ProjectService::list_projects(&rows).unwrap();
    assert_eq!(ps.len(), 2);
    assert_eq!(ps[0].id, "a");
    let bad = vec![vec![SqlValue::Null]];
    assert_eq!(
        ProjectService::list_projects(&bad),
        Err(ColumnError { index: 0, problem: ColumnProblem::WrongType(CellType::Null) })
    );
    assert_eq!(
        ProjectService::list_projects(&vec![vec![text("only-id")]]),
        Err(ColumnError { index: 1, problem: ColumnProblem::Missing })
    );
    let mut null_name = project_row("c", None);
    null_name[1] = SqlValue::Null;
    assert_eq!(
        ProjectService::list_projects(&vec![null_name]),
        Err(ColumnError { index: 1, problem: ColumnProblem::WrongType(CellType::Null) })
    );
    assert_eq!(ProjectService::list_projects(&vec![]), Ok(vec![]));

    let find = ProjectService::find_project_statement("a");
    assert_eq!(find.sql, FIND_PROJECT_SQL);
    assert_eq!(find.params, vec![text("a")]);
    assert_eq!(ProjectService::get_project("a", Some(project_row("a", None))).unwrap().id, "a");
    assert_eq!(
        ProjectService::get_project("q", None),
        Err(AppError::NotFound("Project q not found".to_string()))
    );
}

#[test]
fn delete_project_unassigns_then_deletes() {
    let stmts = ProjectService::delete_project_statements("p7");
    assert_eq!(stmts.len(), 2);
    assert_eq!(stmts[0].sql, UNASSIGN_PROJECT_SQL);
    assert_eq!(stmts[0].params, vec![text("p7")]);
    assert_eq!(stmts[1].sql, DELETE_PROJECT_SQL);
    assert_eq!(stmts[1].params, vec![text("p7")]);
    assert_eq!(ProjectService::delete_project("p7", 1), Ok(()));
    assert_eq!(
        ProjectService::delete_project("p7", 0),
        Err(AppError::NotFound("Project p7 not found".to_string()))
    );
}

#[test]
fn update_project_statements() {
    assert!(ProjectService::update_project("p", &None, &None).is_empty());
    let both = ProjectService::update_project("p", &Some("New".to_string()), &Some("opt".to_string()));
    assert_eq!(both.len(), 2);
    assert_eq!(both[0].sql, RENAME_PROJECT_SQL);
    assert_eq!(both[0].params, vec![text("New"), text("p")]);
    assert_eq!(both[1].sql, SET_OPTIMIZATION_SQL);
    assert_eq!(both[1].params, vec![text("opt"), text("p")]);
    let only = ProjectService::update_project("p", &None, &Some("o2".to_string()));
    assert_eq!(only.len(), 1);
    assert_eq!(only[0].sql, SET_OPTIMIZATION_SQL);
}
