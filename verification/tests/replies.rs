use zscm::web::{Notice, Reason, WebErr};

#[test]
fn notices_read_as_the_service_writes_them() {
    assert_eq!(Notice::Empty.text(), "");
    assert_eq!(Notice::QueryOk.text(), "查询成功");
    assert_eq!(Notice::PageMetaOk.text(), "页面元数据查询成功");
    assert_eq!(Notice::CategoriesOk.text(), "获取记者分类成功");
    assert_eq!(Notice::ReportersOk.text(), "记者列表数据获取成功");
    assert_eq!(Notice::AccountData.text(), "account data got");
    assert_eq!(Notice::SimilarFound.text(), "相似文章查询成功");
}

#[test]
fn errors_carry_their_message() {
    assert_eq!(WebErr::new(Reason::NoAccount).message(), "no account");
    assert_eq!(WebErr::from_message("timeout".to_string()).message(), "timeout");
}
