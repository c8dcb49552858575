pub mod texte;
pub mod memoire;
pub mod json;
pub mod message;
pub mod appariement;
pub mod agent;
pub mod commande;
pub mod horloge;
pub mod swap;
pub mod manager;
pub mod nbd;
pub mod donneur;
pub mod watcher;
pub mod remote_ram;
pub mod proxmox;
pub mod listener;
pub mod recherche;
pub mod lois;
