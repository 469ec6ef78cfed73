//! Navigation core of a terminal browser for a container-image registry:
//! where the user is, which rows are visible, how keys change the state,
//! and how the search text filters the list.
pub mod nav;
pub mod registry;
pub mod search;
pub mod status;
pub mod viewport;
