use bank_query::config::Config;
use bank_query::console::{
    clear_line, import_line, plan_cli_import, read_failed_line, server_started_line, CliImportStep,
    Line,
};
use bank_query::db::like_pattern;
use bank_query::excel::generate_template;
use bank_query::models::{Bank, SearchResponse};
use bank_query::reply::{
    clear_reply, delete_reply, import_reply, password_reply, plan_import, plan_search, search_reply,
    template_reply, update_reply, upload_fault_reply, ImportStep, Reply, SearchStep, UploadFault,
};

fn failure(r: Reply) -> String {
    match r {
        Reply::Failure { message } => message,
        other => panic!("not a failure: {:?}", other),
    }
}

#[test]
fn like_pattern_wraps_query() {
    assert_eq!(like_pattern("工商"), "%工商%");
    assert_eq!(like_pattern(""), "%%");
}

#[test]
fn search_response_from_query() {
    let b = Bank { id: 3, code: "ICBC".to_string(), name: "中国工商银行".to_string() };
    let r = SearchResponse::from_query(vec![b.clone()], 120);
    assert_eq!(r.results, vec![b]);
    assert_eq!(r.total, 120);
    assert_eq!(SearchResponse::empty(), SearchResponse { results: vec![], total: 0 });
}

#[test]
fn password_check() {
    let c = Config::default();
    assert!(matches!(password_reply(&c, "admin123"), Reply::PasswordCheck { valid: true }));
    assert!(matches!(password_reply(&c, "admin"), Reply::PasswordCheck { valid: false }));
}

#[test]
fn empty_search_answers_at_once() {
    match plan_search("") {
        SearchStep::Answer(Reply::Found(r)) => assert_eq!(r, SearchResponse::empty()),
        _ => panic!("an empty query is answered at once"),
    }
    match plan_search("ICBC") {
        SearchStep::Lookup(q) => assert_eq!(q, "ICBC"),
        _ => panic!("a query is looked up"),
    }
}

#[test]
fn search_replies() {
    let r = SearchResponse::from_query(vec![], 0);
    assert!(matches!(search_reply(Ok(r)), Reply::Found(_)));
    match search_reply(Err("disk I/O error".to_string())) {
        Reply::Error { error } => assert_eq!(error, "查询失败: disk I/O error"),
        other => panic!("{:?}", other),
    }
}

#[test]
fn import_of_empty_upload_is_refused() {
    match plan_import(&[]) {
        ImportStep::Answer(r) => assert_eq!(failure(r), "上传文件为空"),
        _ => panic!("refused"),
    }
}

#[test]
fn import_of_non_workbook_is_refused() {
    match plan_import(b"hello") {
        ImportStep::Answer(r) => {
            assert_eq!(failure(r), "文件解析失败: 无法解析文件，请确保是有效的 .xlsx 格式")
        }
        _ => panic!("refused"),
    }
}

#[test]
fn import_of_template_inserts_samples() {
    let bytes = generate_template().unwrap();
    match plan_import(&bytes) {
        ImportStep::Insert(records) => assert_eq!(records.len(), 2),
        _ => panic!("the template holds records"),
    }
}

#[test]
fn import_replies() {
    assert!(matches!(import_reply(Ok(2)), Reply::Done { count: 2 }));
    assert_eq!(failure(import_reply(Err("locked".to_string()))), "数据库写入失败: locked");
    assert_eq!(
        failure(upload_fault_reply(UploadFault::Part)),
        "读取上传文件失败，请检查文件名是否为中文或特殊字符"
    );
    assert_eq!(failure(upload_fault_reply(UploadFault::Content)), "读取文件内容失败");
}

#[test]
fn change_replies() {
    assert!(matches!(clear_reply(Ok(7)), Reply::Done { count: 7 }));
    assert_eq!(failure(clear_reply(Err("e".to_string()))), "清空失败: e");
    assert!(matches!(update_reply(Ok(true)), Reply::Success));
    assert_eq!(failure(update_reply(Ok(false))), "未找到该记录");
    assert_eq!(failure(update_reply(Err("e".to_string()))), "更新失败: e");
    assert!(matches!(delete_reply(Ok(true)), Reply::Success));
    assert_eq!(failure(delete_reply(Ok(false))), "未找到该记录");
    assert_eq!(failure(delete_reply(Err("e".to_string()))), "删除失败: e");
}

#[test]
fn template_replies() {
    match template_reply(Ok(vec![1, 2, 3])) {
        Reply::File { data } => assert_eq!(data, vec![1, 2, 3]),
        other => panic!("{:?}", other),
    }
    match template_reply(Err("boom".to_string())) {
        Reply::Error { error } => assert_eq!(error, "生成模板失败: boom"),
        other => panic!("{:?}", other),
    }
}

#[test]
fn console_lines() {
    assert_eq!(read_failed_line("not found"), Line::Error("读取文件失败: not found".to_string()));
    assert_eq!(import_line(Ok(12)), Line::Out("成功导入 12 条数据".to_string()));
    assert_eq!(import_line(Err("x".to_string())), Line::Error("导入失败: x".to_string()));
    assert_eq!(clear_line(Ok(0)), Line::Out("已清空 0 条数据".to_string()));
    assert_eq!(clear_line(Err("x".to_string())), Line::Error("清空失败: x".to_string()));
    assert_eq!(
        server_started_line(10119),
        Line::Out("Server started at http://localhost:10119".to_string())
    );
}

#[test]
fn cli_import_steps() {
    match plan_cli_import(b"nope") {
        CliImportStep::Report(l) => assert_eq!(
            l,
            Line::Error("解析文件失败: 无法解析文件，请确保是有效的 .xlsx 格式".to_string())
        ),
        _ => panic!("reported"),
    }
    match plan_cli_import(&generate_template().unwrap()) {
        CliImportStep::Insert(r) => assert_eq!(r[0], ("ICBC".to_string(), "中国工商银行".to_string())),
        _ => panic!("inserted"),
    }
}
