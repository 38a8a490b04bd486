use tokimo_app_helloworld::migration::{
    drop_schema_statement, perform_plan, ColumnType, Migration, PlanAction, PlanEvent, PlanState, SchemaStep,
};

#[test]
fn up_creates_schema_table_and_indexes() {
    let steps = Migration.up();
    assert_eq!(steps.len(), 4);
    assert!(matches!(&steps[0], SchemaStep::CreateSchemaIfMissing(s) if s == "helloworld"));
    match &steps[1] {
        SchemaStep::CreateTable { schema, table, columns } => {
            assert_eq!((schema.as_str(), table.as_str()), ("helloworld", "items"));
            let names: Vec<&str> = columns.iter().map(|c| c.name.as_str()).collect();
            assert_eq!(names, vec!["id", "content", "user_id", "created_at"]);
            assert!(columns.iter().all(|c| c.not_null));
            assert!(matches!(columns[0].column_type, ColumnType::Uuid));
            assert!(columns[0].primary_key);
            assert_eq!(columns[0].default_expr.as_deref(), Some("gen_random_uuid()"));
            assert!(matches!(columns[1].column_type, ColumnType::Text));
            assert!(columns[1].default_expr.is_none());
            assert_eq!(columns[2].default_expr.as_deref(), Some("'00000000-0000-0000-0000-000000000000'"));
            assert!(matches!(columns[3].column_type, ColumnType::TimestampWithTimeZone));
            assert_eq!(columns[3].default_expr.as_deref(), Some("NOW()"));
        }
        _ => panic!("expected the table"),
    }
    match &steps[2] {
        SchemaStep::CreateIndex { index, .. } => {
            assert_eq!((index.name.as_str(), index.column.as_str(), index.descending), ("items_created_at_idx", "created_at", true));
        }
        _ => panic!("expected an index"),
    }
    match &steps[3] {
        SchemaStep::CreateIndex { index, .. } => {
            assert_eq!((index.name.as_str(), index.column.as_str(), index.descending), ("items_user_id_idx", "user_id", false));
        }
        _ => panic!("expected an index"),
    }
}

#[test]
fn down_drops_table_then_schema() {
    let steps = Migration.down();
    assert_eq!(steps.len(), 2);
    assert!(matches!(&steps[0], SchemaStep::DropTable { schema, table } if schema == "helloworld" && table == "items"));
    assert!(matches!(&steps[1], SchemaStep::DropSchemaCascade(s) if s == "helloworld"));
}

#[test]
fn drop_schema_sql() {
    assert_eq!(drop_schema_statement("helloworld"), "DROP SCHEMA IF EXISTS \"helloworld\" CASCADE");
}

fn perform(count: usize, refused_at: Option<usize>) -> (Vec<usize>, Result<(), String>) {
    let (mut run, mut action) = perform_plan::<String>(count);
    let mut performed = Vec::new();
    loop {
        action = match action {
            PlanAction::Perform(i) => {
                performed.push(i);
                if refused_at == Some(i) {
                    run.step(PlanEvent::Failed(format!("step {i} refused")))
                } else {
                    run.step(PlanEvent::Succeeded)
                }
            }
            PlanAction::Finish => return (performed, Ok(())),
            PlanAction::Fail(e) => return (performed, Err(e)),
        };
    }
}

#[test]
fn plan_performs_every_step_in_order() {
    assert_eq!(perform(4, None), (vec![0, 1, 2, 3], Ok(())));
    assert_eq!(perform(0, None), (vec![], Ok(())));
}

#[test]
fn plan_stops_at_first_refused_step() {
    assert_eq!(perform(4, Some(1)), (vec![0, 1], Err("step 1 refused".to_string())));
    assert_eq!(perform(2, Some(0)), (vec![0], Err("step 0 refused".to_string())));
}

#[test]
fn failed_plan_takes_no_more_events() {
    let (mut run, _) = perform_plan::<()>(3);
    assert!(matches!(run.step(PlanEvent::Failed(())), PlanAction::Fail(())));
    assert!(matches!(run.state, PlanState::Failed));
}
