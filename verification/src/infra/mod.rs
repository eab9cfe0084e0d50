pub mod browser;
pub mod logger;
pub mod dtos;
pub mod forms;
pub mod handlers;
pub mod images;
pub mod marketplace;
pub mod scripts;
pub mod server;
pub mod status;
pub mod publishing;
pub mod option_locators;
