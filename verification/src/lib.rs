//! A relay for requests to AI services.
//!
//! Clients speak the OpenAI interface; upstream channels speak their own. The
//! library turns requests and answers into each other's formats (`request`,
//! `kling`, `dashscope`, `content`, `tencent`, `jimeng`, `chat`, `media`,
//! `multipart`), decides how and where a request is forwarded and what becomes
//! of the answer (`forward`, `auth`, `attempt`, `exchange`, the `relay_*`
//! modules), works out what it costs and what is recorded of it (`usage`,
//! `billing` and the `bill*` modules, `ledger`), and adapts the asset
//! interfaces of upstreams (`asset_profile`, `asset_client`).
//!
//! The modules whose names end in `_laws` prove what holds of all this over
//! every input: what each format keeps and where it puts it, where a request
//! goes, and what a bill comes to.
//!
//! What is sent, received, stored or computed in floating point stays outside:
//! the functions take and give plain values.
pub mod text;
pub mod text_laws;
pub mod json;
pub mod double;
pub mod media;
pub mod media_laws;
pub mod multipart;
pub mod form_laws;
pub mod kling;
pub mod kling_laws;
pub mod dashscope;
pub mod content;
pub mod ratio;
pub mod resolution_laws;
pub mod tencent;
pub mod tencent_laws;
pub mod jimeng;
pub mod jimeng_laws;
pub mod request;
pub mod request_laws;
pub mod vendor_laws;
pub mod content_laws;
pub mod chat;
pub mod chat_laws;
pub mod forward;
pub mod forward_laws;
pub mod auth;
pub mod auth_laws;
mod clock;
pub mod attempt;
pub mod serving_laws;
pub mod relay_chat;
pub mod relay_generic;
pub mod relay_laws;
pub mod relay_image;
pub mod relay_video;
pub mod exchange;
pub mod ledger;
pub mod usage;
pub mod usage_laws;
pub mod cost;
pub mod price_table;
pub mod bill;
pub mod bill_requests;
pub mod bill_duration;
pub mod bill_tokens;
pub mod billing;
pub mod billing_laws;
pub mod price_laws;
pub mod rate_laws;
pub mod asset_profile;
pub mod asset_client;
pub mod asset_laws;
