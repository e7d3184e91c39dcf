pub mod search_entity;
