//! One module per endpoint of the service.

pub mod search_similar_combined;
pub mod vectorize_titles;
pub mod score;
pub mod account;
pub mod write;
pub mod statement;
pub mod article;
pub mod event;
pub mod reporter;
pub mod monthly_add_score;
pub mod batch_update_tv_urls;
pub mod get_articles;
pub mod get_paper_abnormal_articles;
pub mod calc_monthly;
pub mod get_reporter_events;
pub mod get_reporters;
pub mod get_programs;
pub mod params;
pub mod login;
pub mod auth;
pub mod get_cooperation_scores;
pub mod get_monthly_sub_score;
pub mod get_page_meta;
pub mod get_reporter_categories;
pub mod get_reporter_info_by_name;
